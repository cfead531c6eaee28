//! Application bundles: directories with a manifest and templates.
//!
//! A bundle lives in a directory of its own below the application root; the
//! directory's name is the bundle's id. Its `template` directory holds the
//! files that are rendered on a deploy, its `application.yaml` the manifest.
//! The manager is filled from what a scan of the application root found,
//! and a bundle's manifest is replaced when its file changes.

use vstd::prelude::*;
use vstd::string::*;
use crate::application::{ApplicationTmpl, ApplicationTmplView};
use crate::config::{join_path, joined};
use crate::text::{clone_strings, str_eq, strs};

verus! {

/// An entry of a bundle's `template` directory.
#[derive(Debug)]
pub struct TemplateEntry {
    pub file_name: String,
    /// Whether the entry is a regular file.
    pub is_file: bool,
}

/// The names of the regular files among the entries, in order.
pub open spec fn template_files(entries: Seq<TemplateEntry>) -> Seq<Seq<char>>
    decreases entries.len(),
{
    if entries.len() == 0 {
        Seq::empty()
    } else {
        let rest = template_files(entries.drop_last());
        if entries.last().is_file {
            rest.push(entries.last().file_name@)
        } else {
            rest
        }
    }
}

/// The names of the templates of a bundle: those of the regular files in
/// its `template` directory.
pub fn template_names(entries: &Vec<TemplateEntry>) -> (r: Vec<String>)
    ensures
        strs(r@) == template_files(entries@),
{
    let mut r: Vec<String> = Vec::new();
    let mut i: usize = 0;
    proof {
        assert(entries@.take(0) =~= Seq::<TemplateEntry>::empty());
        assert(strs(r@) =~= template_files(entries@.take(0)));
    }
    while i < entries.len()
        invariant
            i <= entries.len(),
            strs(r@) == template_files(entries@.take(i as int)),
        decreases entries.len() - i,
    {
        proof {
            assert(entries@.take(i as int + 1).drop_last() =~= entries@.take(i as int));
            assert(entries@.take(i as int + 1).last() == entries@[i as int]);
        }
        if entries[i].is_file {
            let ghost before = strs(r@);
            r.push(entries[i].file_name.clone());
            proof {
                assert(strs(r@) =~= before.push(entries@[i as int].file_name@));
            }
        }
        i += 1;
    }
    proof {
        assert(entries@.take(i as int) =~= entries@);
    }
    r
}

/// What reading a bundle's manifest gave.
#[derive(Debug)]
pub enum Manifest {
    /// The file could not be read.
    Unreadable,
    /// The file is not a manifest.
    Invalid,
    Parsed(ApplicationTmpl),
}

/// What a scan found of one directory below the application root.
#[derive(Debug)]
pub struct BundleScan {
    /// The directory.
    pub path: String,
    /// Its name, where it has one.
    pub id: Option<String>,
    /// The entries of its `template` directory, where that could be listed.
    pub template: Option<Vec<TemplateEntry>>,
    pub manifest: Manifest,
    /// Whether the manifest is being watched for changes.
    pub watched: bool,
}

/// A bundle as the manager holds it.
#[derive(Debug)]
pub struct AppTmplState {
    root_path: String,
    pub id: String,
    /// The manifest, where the file holds one.
    pub info: Option<ApplicationTmpl>,
    /// The names of the templates.
    pub tmpls: Vec<String>,
}

/// A bundle as a mathematical value.
pub struct AppTmplStateView {
    pub root_path: Seq<char>,
    pub id: Seq<char>,
    pub info: Option<ApplicationTmplView>,
    pub tmpls: Seq<Seq<char>>,
}

/// A manifest that may be absent, as a mathematical value.
pub open spec fn info_view(info: Option<ApplicationTmpl>) -> Option<ApplicationTmplView> {
    match info {
        Some(t) => Some(t@),
        None => None,
    }
}

impl View for AppTmplState {
    type V = AppTmplStateView;

    closed spec fn view(&self) -> AppTmplStateView {
        AppTmplStateView {
            root_path: self.root_path@,
            id: self.id@,
            info: info_view(self.info),
            tmpls: strs(self.tmpls@),
        }
    }
}

impl Clone for AppTmplState {
    fn clone(&self) -> (r: Self)
        ensures
            r@ == self@,
    {
        let info = match &self.info {
            Some(t) => Some(t.clone()),
            None => None,
        };
        AppTmplState {
            root_path: self.root_path.clone(),
            id: self.id.clone(),
            info,
            tmpls: clone_strings(&self.tmpls),
        }
    }
}

impl AppTmplState {
    /// The bundle's directory.
    pub fn get_app_root_path(&self) -> (r: &str)
        ensures
            r@ == self@.root_path,
    {
        self.root_path.as_str()
    }

    /// The directory in which the bundle's compose project runs unless a
    /// deploy names another.
    pub fn get_default_project_path(&self) -> (r: String)
        ensures
            r@ == joined(self@.root_path, "project"@),
    {
        join_path(self.root_path.as_str(), "project")
    }

    /// The bundle's id.
    pub fn get_id(&self) -> (r: &str)
        ensures
            r@ == self@.id,
    {
        self.id.as_str()
    }

    /// The names of the bundle's templates.
    pub fn get_tmpls(&self) -> (r: &Vec<String>)
        ensures
            strs(r@) == self@.tmpls,
    {
        &self.tmpls
    }

    /// The bundle's manifest.
    pub fn get_info(&self) -> (r: &Option<ApplicationTmpl>)
        ensures
            info_view(*r) == self@.info,
    {
        &self.info
    }

    /// Whether the bundle has a template of this name.
    pub fn has_tmpl(&self, name: &str) -> (r: bool)
        ensures
            r == self@.tmpls.contains(name@),
    {
        let mut i: usize = 0;
        while i < self.tmpls.len()
            invariant
                i <= self.tmpls.len(),
                forall|j: int| 0 <= j < i ==> strs(self.tmpls@)[j] != name@,
            decreases self.tmpls.len() - i,
        {
            if str_eq(self.tmpls[i].as_str(), name) {
                proof {
                    assert(strs(self.tmpls@)[i as int] == name@);
                }
                return true;
            }
            i += 1;
        }
        false
    }
}

/// The views of a scan's parts that a bundle is made of.
pub struct BundleScanView {
    pub path: Seq<char>,
    pub id: Option<Seq<char>>,
    pub template: Option<Seq<Seq<char>>>,
    pub readable: bool,
    pub info: Option<ApplicationTmplView>,
    pub watched: bool,
}

impl View for BundleScan {
    type V = BundleScanView;

    open spec fn view(&self) -> BundleScanView {
        BundleScanView {
            path: self.path@,
            id: match self.id {
                Some(i) => Some(i@),
                None => None,
            },
            template: match self.template {
                Some(e) => Some(template_files(e@)),
                None => None,
            },
            readable: !(self.manifest is Unreadable),
            info: match self.manifest {
                Manifest::Parsed(t) => Some(t@),
                _ => None,
            },
            watched: self.watched,
        }
    }
}

/// The views of a sequence of scans.
pub open spec fn scan_views(v: Seq<BundleScan>) -> Seq<BundleScanView> {
    v.map_values(|s: BundleScan| s@)
}

/// The views of a sequence of bundles.
pub open spec fn bundle_views(v: Seq<AppTmplState>) -> Seq<AppTmplStateView> {
    v.map_values(|s: AppTmplState| s@)
}

/// Whether position `i` holds the bundle `id`.
pub open spec fn bundle_at(bundles: Seq<AppTmplStateView>, id: Seq<char>, i: int) -> bool {
    0 <= i < bundles.len() && bundles[i].id == id
}

/// Whether there is a bundle `id`.
pub open spec fn has_bundle(bundles: Seq<AppTmplStateView>, id: Seq<char>) -> bool {
    exists|i: int| bundle_at(bundles, id, i)
}

/// A position of the bundle `id`.
pub open spec fn bundle_index(bundles: Seq<AppTmplStateView>, id: Seq<char>) -> int {
    choose|i: int| bundle_at(bundles, id, i)
}

/// No two bundles have the same id.
pub open spec fn unique_ids(bundles: Seq<AppTmplStateView>) -> bool {
    forall|i: int, j: int|
        0 <= i < j < bundles.len() ==> (#[trigger] bundles[i]).id != (#[trigger] bundles[j]).id
}

/// The bundles with `b` in place of any bundle of its id.
pub open spec fn put(bundles: Seq<AppTmplStateView>, b: AppTmplStateView) -> Seq<AppTmplStateView> {
    if has_bundle(bundles, b.id) {
        bundles.update(bundle_index(bundles, b.id), b)
    } else {
        bundles.push(b)
    }
}

/// What one scanned directory does to the bundles, and whether the scan can
/// go on. A directory without a name, one whose manifest cannot be read and
/// one that is not watched are passed over. A directory whose templates
/// cannot be listed stops the scan.
pub open spec fn scanned_one(bundles: Seq<AppTmplStateView>, scan: BundleScanView) -> (
    Seq<AppTmplStateView>,
    bool,
) {
    match scan.id {
        None => (bundles, true),
        Some(id) => match scan.template {
            None => (bundles, false),
            Some(tmpls) => if !scan.readable || !scan.watched {
                (bundles, true)
            } else {
                (
                    put(
                        bundles,
                        AppTmplStateView { root_path: scan.path, id, info: scan.info, tmpls },
                    ),
                    true,
                )
            },
        },
    }
}

/// What the scanned directories do to the bundles, one after the other up
/// to the first that stops the scan, and whether none did.
pub open spec fn scanned(bundles: Seq<AppTmplStateView>, scans: Seq<BundleScanView>) -> (
    Seq<AppTmplStateView>,
    bool,
)
    decreases scans.len(),
{
    if scans.len() == 0 {
        (bundles, true)
    } else {
        let before = scanned(bundles, scans.drop_last());
        if before.1 {
            scanned_one(before.0, scans.last())
        } else {
            before
        }
    }
}

/// Why the bundles could not be loaded.
#[derive(Debug)]
pub enum InitError {
    /// The templates of the bundle in this directory could not be listed.
    TemplateDir(String),
}

/// The bundles, by id.
pub struct AppTmplManager {
    app_tmpl_list: Vec<AppTmplState>,
}

impl View for AppTmplManager {
    type V = Seq<AppTmplStateView>;

    closed spec fn view(&self) -> Seq<AppTmplStateView> {
        bundle_views(self.app_tmpl_list@)
    }
}

/// Under unique ids a bundle has one position only.
pub proof fn lemma_bundle_index(bundles: Seq<AppTmplStateView>, id: Seq<char>, i: int)
    requires
        unique_ids(bundles),
        bundle_at(bundles, id, i),
    ensures
        has_bundle(bundles, id),
        bundle_index(bundles, id) == i,
{
    let k = bundle_index(bundles, id);
    assert(bundle_at(bundles, id, k));
    if k < i {
        assert(bundles[k].id != bundles[i].id);
    } else if i < k {
        assert(bundles[i].id != bundles[k].id);
    }
}

impl AppTmplManager {
    /// The invariant of the manager: ids are unique.
    pub open spec fn wf(&self) -> bool {
        unique_ids(self@)
    }

    /// A manager without bundles.
    pub fn new() -> (m: AppTmplManager)
        ensures
            m.wf(),
            m@ == Seq::<AppTmplStateView>::empty(),
    {
        let m = AppTmplManager { app_tmpl_list: Vec::new() };
        assert(m@ =~= Seq::<AppTmplStateView>::empty());
        m
    }

    fn position(&self, id: &str) -> (r: Option<usize>)
        ensures
            match r {
                Some(i) => bundle_at(self@, id@, i as int),
                None => !has_bundle(self@, id@),
            },
    {
        let mut i: usize = 0;
        while i < self.app_tmpl_list.len()
            invariant
                i <= self.app_tmpl_list.len(),
                forall|j: int| 0 <= j < i ==> !bundle_at(self@, id@, j),
            decreases self.app_tmpl_list.len() - i,
        {
            if str_eq(id, self.app_tmpl_list[i].id.as_str()) {
                return Some(i);
            }
            i += 1;
        }
        None
    }

    /// The bundle `id`, if there is one.
    pub fn get_app_tmpl(&self, id: &str) -> (r: Option<&AppTmplState>)
        requires
            self.wf(),
        ensures
            match r {
                Some(b) => has_bundle(self@, id@) && b@ == self@[bundle_index(self@, id@)],
                None => !has_bundle(self@, id@),
            },
    {
        match self.position(id) {
            Some(i) => {
                proof {
                    lemma_bundle_index(self@, id@, i as int);
                }
                Some(&self.app_tmpl_list[i])
            },
            None => None,
        }
    }

    /// All bundles.
    pub fn get_app_tmpl_list(&self) -> (r: &Vec<AppTmplState>)
        ensures
            bundle_views(r@) == self@,
    {
        &self.app_tmpl_list
    }

    /// Takes one scanned directory in. Returns whether the scan can go on.
    pub fn add_bundle(&mut self, scan: &BundleScan) -> (ok: bool)
        requires
            old(self).wf(),
        ensures
            final(self).wf(),
            (final(self)@, ok) == scanned_one(old(self)@, scan@),
    {
        let id = match &scan.id {
            Some(id) => id.clone(),
            None => return true,
        };
        let entries = match &scan.template {
            Some(e) => e,
            None => return false,
        };
        let info = match &scan.manifest {
            Manifest::Unreadable => return true,
            Manifest::Invalid => None,
            Manifest::Parsed(t) => Some(t.clone()),
        };
        if !scan.watched {
            return true;
        }
        let tmpls = template_names(entries);
        let bundle = AppTmplState { root_path: scan.path.clone(), id, info, tmpls };
        let ghost b = bundle@;
        let ghost before = self@;
        match self.position(bundle.id.as_str()) {
            Some(i) => {
                proof {
                    lemma_bundle_index(self@, b.id, i as int);
                }
                self.app_tmpl_list.set(i, bundle);
                proof {
                    assert(self@ =~= before.update(i as int, b));
                    assert forall|x: int, y: int| 0 <= x < y < self@.len() implies (
                    #[trigger] self@[x]).id != (#[trigger] self@[y]).id by {
                        assert(before[x].id != before[y].id);
                    }
                }
            },
            None => {
                self.app_tmpl_list.push(bundle);
                proof {
                    assert(self@ =~= before.push(b));
                    assert forall|x: int, y: int| 0 <= x < y < self@.len() implies (
                    #[trigger] self@[x]).id != (#[trigger] self@[y]).id by {
                        if y == before.len() {
                            assert(!bundle_at(before, b.id, x));
                        } else {
                            assert(before[x].id != before[y].id);
                        }
                    }
                }
            },
        }
        true
    }

    /// Fills the manager from a scan of the application root, directory by
    /// directory. The scan ends at the first directory whose templates could
    /// not be listed; what was taken in before stays.
    pub fn init(&mut self, scans: &Vec<BundleScan>) -> (r: Result<(), InitError>)
        requires
            old(self).wf(),
        ensures
            final(self).wf(),
            (final(self)@, r is Ok) == scanned(old(self)@, scan_views(scans@)),
    {
        let ghost all = scan_views(scans@);
        let mut done: usize = 0;
        proof {
            assert(all.take(0) =~= Seq::<BundleScanView>::empty());
        }
        while done < scans.len()
            invariant
                self.wf(),
                done <= scans.len(),
                all == scan_views(scans@),
                (self@, true) == scanned(old(self)@, all.take(done as int)),
            decreases scans.len() - done,
        {
            proof {
                assert(all.take(done as int + 1).drop_last() =~= all.take(done as int));
                assert(all.take(done as int + 1).last() == all[done as int]);
            }
            let ok = self.add_bundle(&scans[done]);
            if !ok {
                proof {
                    lemma_scan_stays_stopped(old(self)@, all, done as int + 1);
                }
                return Err(InitError::TemplateDir(scans[done].path.clone()));
            }
            done += 1;
        }
        proof {
            assert(all.take(done as int) =~= all);
        }
        Ok(())
    }

    /// Takes a manifest that was read again after its file changed. Where
    /// the file no longer holds a manifest, or the bundle is not known, the
    /// bundles stay as they are.
    pub fn reload_info(&mut self, id: &str, parsed: Option<ApplicationTmpl>)
        requires
            old(self).wf(),
        ensures
            final(self).wf(),
            final(self)@ == (match parsed {
                Some(t) => if has_bundle(old(self)@, id@) {
                    let i = bundle_index(old(self)@, id@);
                    old(self)@.update(
                        i,
                        AppTmplStateView { info: Some(t@), ..old(self)@[i] },
                    )
                } else {
                    old(self)@
                },
                None => old(self)@,
            }),
    {
        let t = match parsed {
            Some(t) => t,
            None => return ,
        };
        match self.position(id) {
            Some(i) => {
                proof {
                    lemma_bundle_index(self@, id@, i as int);
                }
                let mut bundle = self.app_tmpl_list[i].clone();
                bundle.info = Some(t);
                let ghost b = bundle@;
                self.app_tmpl_list.set(i, bundle);
                proof {
                    assert(self@ =~= old(self)@.update(i as int, b));
                    assert forall|x: int, y: int| 0 <= x < y < self@.len() implies (
                    #[trigger] self@[x]).id != (#[trigger] self@[y]).id by {
                        assert(old(self)@[x].id != old(self)@[y].id);
                    }
                }
            },
            None => {},
        }
    }
}

/// A scan that was stopped stays as it was, whatever directories follow.
pub proof fn lemma_scan_stays_stopped(
    bundles: Seq<AppTmplStateView>,
    scans: Seq<BundleScanView>,
    k: int,
)
    requires
        0 <= k <= scans.len(),
        !scanned(bundles, scans.take(k)).1,
    ensures
        scanned(bundles, scans) == scanned(bundles, scans.take(k)),
    decreases scans.len() - k,
{
    if k == scans.len() {
        assert(scans.take(k) =~= scans);
    } else {
        assert(scans.take(k + 1).drop_last() =~= scans.take(k));
        lemma_scan_stays_stopped(bundles, scans, k + 1);
    }
}

/// Every bundle that a scan takes in has as its templates the regular files
/// of its `template` directory.
pub proof fn lemma_bundle_templates(bundles: Seq<AppTmplStateView>, scan: BundleScanView, i: int)
    requires
        0 <= i < scanned_one(bundles, scan).0.len(),
        scan.id is Some,
        scanned_one(bundles, scan).0[i].id == scan.id->Some_0,
        scan.template is Some,
        scan.readable,
        scan.watched,
        unique_ids(bundles),
    ensures
        scanned_one(bundles, scan).0[i].tmpls == scan.template->Some_0,
{
    let id = scan.id->Some_0;
    if has_bundle(bundles, id) {
        let k = bundle_index(bundles, id);
        assert(bundle_at(bundles, id, k));
        if i != k {
            if i < k {
                assert(bundles[i].id != bundles[k].id);
            } else {
                assert(bundles[k].id != bundles[i].id);
            }
        }
    } else {
        if i < bundles.len() {
            assert(bundle_at(bundles, id, i));
        }
    }
}

/// Whether a scanned directory is taken in as a bundle.
pub open spec fn admitted(scan: BundleScanView) -> bool {
    scan.id is Some && scan.template is Some && scan.readable && scan.watched
}

/// Putting a bundle in keeps the ids unique, leaves the bundle under its
/// id, and leaves the bundle of any other id as it was.
pub proof fn lemma_put(bundles: Seq<AppTmplStateView>, b: AppTmplStateView, other: Seq<char>)
    requires
        unique_ids(bundles),
    ensures
        unique_ids(put(bundles, b)),
        has_bundle(put(bundles, b), b.id),
        put(bundles, b)[bundle_index(put(bundles, b), b.id)] == b,
        other != b.id && has_bundle(bundles, other) ==> has_bundle(put(bundles, b), other) && put(
            bundles,
            b,
        )[bundle_index(put(bundles, b), other)] == bundles[bundle_index(bundles, other)],
{
    let after = put(bundles, b);
    let at = if has_bundle(bundles, b.id) {
        bundle_index(bundles, b.id)
    } else {
        bundles.len() as int
    };
    if has_bundle(bundles, b.id) {
        assert(bundle_at(bundles, b.id, at));
    }
    assert forall|x: int, y: int| 0 <= x < y < after.len() implies (#[trigger] after[x]).id != (
    #[trigger] after[y]).id by {
        if has_bundle(bundles, b.id) {
            assert(bundles[x].id != bundles[y].id);
        } else if y == bundles.len() {
            assert(!bundle_at(bundles, b.id, x));
        } else {
            assert(bundles[x].id != bundles[y].id);
        }
    }
    assert(bundle_at(after, b.id, at));
    lemma_bundle_index(after, b.id, at);
    if other != b.id && has_bundle(bundles, other) {
        let o = bundle_index(bundles, other);
        assert(bundle_at(bundles, other, o));
        assert(bundle_at(after, other, o));
        lemma_bundle_index(after, other, o);
    }
}

/// A scan keeps the ids unique.
pub proof fn lemma_scanned_keeps_ids_unique(
    bundles: Seq<AppTmplStateView>,
    scans: Seq<BundleScanView>,
)
    requires
        unique_ids(bundles),
    ensures
        unique_ids(scanned(bundles, scans).0),
    decreases scans.len(),
{
    if scans.len() > 0 {
        lemma_scanned_keeps_ids_unique(bundles, scans.drop_last());
        let before = scanned(bundles, scans.drop_last());
        let last = scans.last();
        if before.1 && admitted(last) {
            lemma_put(
                before.0,
                AppTmplStateView {
                    root_path: last.path,
                    id: last.id->Some_0,
                    info: last.info,
                    tmpls: last.template->Some_0,
                },
                last.id->Some_0,
            );
        }
    }
}

/// After a scan that went through, every directory that was taken in as a
/// bundle, and that no later directory of the same name replaced, is held
/// under its name with the regular files of its `template` directory as
/// its templates.
pub proof fn lemma_scanned_templates(
    bundles: Seq<AppTmplStateView>,
    scans: Seq<BundleScanView>,
    k: int,
)
    requires
        unique_ids(bundles),
        0 <= k < scans.len(),
        scanned(bundles, scans).1,
        admitted(scans[k]),
        forall|m: int|
            k < m < scans.len() && admitted(#[trigger] scans[m]) ==> scans[m].id != scans[k].id,
    ensures
        has_bundle(scanned(bundles, scans).0, scans[k].id->Some_0),
        scanned(bundles, scans).0[bundle_index(
            scanned(bundles, scans).0,
            scans[k].id->Some_0,
        )].tmpls == scans[k].template->Some_0,
        scanned(bundles, scans).0[bundle_index(
            scanned(bundles, scans).0,
            scans[k].id->Some_0,
        )].id == scans[k].id->Some_0,
    decreases scans.len(),
{
    let head = scans.drop_last();
    let before = scanned(bundles, head);
    let last = scans.last();
    let id = scans[k].id->Some_0;
    lemma_scanned_keeps_ids_unique(bundles, head);
    assert(before.1);
    let b = AppTmplStateView {
        root_path: last.path,
        id: last.id->Some_0,
        info: last.info,
        tmpls: last.template->Some_0,
    };
    if k == scans.len() - 1 {
        lemma_put(before.0, b, id);
    } else {
        assert(head[k] == scans[k]);
        assert forall|m: int| k < m < head.len() && admitted(#[trigger] head[m]) implies head[m].id
            != head[k].id by {
            assert(head[m] == scans[m]);
        }
        lemma_scanned_templates(bundles, head, k);
        if admitted(last) {
            assert(scans[scans.len() - 1] == last);
            assert(last.id != scans[k].id);
            lemma_put(before.0, b, id);
        } else {
            let r = scanned(bundles, scans).0;
            assert(r == before.0);
        }
        let r = scanned(bundles, scans).0;
        assert(bundle_at(r, id, bundle_index(r, id)));
    }
}

} // verus!
