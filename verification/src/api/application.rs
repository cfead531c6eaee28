//! The endpoints that tell of bundles and deployments.

use vstd::prelude::*;
use vstd::string::*;
use crate::application::{ApplicationTmpl, ApplicationTmplQaItem, ApplicationTmplView};
use crate::bundle::{
    bundle_index,
    bundle_views,
    has_bundle,
    AppTmplManager,
    AppTmplState,
    AppTmplStateView,
};
use crate::deploy::{AppDeployInfo, AppDeployInfoView};
use crate::text::{clone_strings, concat2, strs};

verus! {

/// A bundle as operators see it.
#[derive(Debug)]
pub struct ApplicationTmplResponse {
    pub name: String,
    pub description: String,
    pub tmpls: Vec<String>,
    pub id: String,
    pub version: Option<String>,
    pub qa: Option<Vec<ApplicationTmplQaItem>>,
    pub values: Option<String>,
}

/// A bundle as operators see it, as a mathematical value.
pub struct ApplicationTmplResponseView {
    pub id: Seq<char>,
    pub tmpls: Seq<Seq<char>>,
    pub info: ApplicationTmplView,
    pub values: Option<Seq<char>>,
}

impl View for ApplicationTmplResponse {
    type V = ApplicationTmplResponseView;

    open spec fn view(&self) -> ApplicationTmplResponseView {
        ApplicationTmplResponseView {
            id: self.id@,
            tmpls: strs(self.tmpls@),
            info: (ApplicationTmpl {
                name: self.name,
                description: self.description,
                version: self.version,
                qa: self.qa,
            })@,
            values: crate::text::opt_string_view(self.values),
        }
    }
}

/// What operators are told of a bundle that has a manifest.
pub open spec fn tmpl_response(b: AppTmplStateView) -> Option<ApplicationTmplResponseView> {
    match b.info {
        Some(info) => Some(
            ApplicationTmplResponseView { id: b.id, tmpls: b.tmpls, info, values: None },
        ),
        None => None,
    }
}

/// What operators are told of a bundle; nothing where it has no manifest.
pub fn get_app_tmpl_by_id(app: &AppTmplState) -> (r: Option<ApplicationTmplResponse>)
    ensures
        match r {
            Some(resp) => tmpl_response(app@) == Some(resp@),
            None => tmpl_response(app@) is None,
        },
{
    match app.get_info() {
        Some(info) => {
            let copy = info.clone();
            Some(
                ApplicationTmplResponse {
                    name: copy.name,
                    description: copy.description,
                    tmpls: clone_strings(app.get_tmpls()),
                    id: app.get_id().to_owned(),
                    version: copy.version,
                    qa: copy.qa,
                    values: None,
                },
            )
        },
        None => None,
    }
}

/// The views of a sequence of bundle answers.
pub open spec fn response_views(v: Seq<ApplicationTmplResponse>) -> Seq<
    ApplicationTmplResponseView,
> {
    v.map_values(|r: ApplicationTmplResponse| r@)
}

/// What operators are told of the bundles: those that have a manifest, in
/// order.
pub open spec fn tmpl_responses(bundles: Seq<AppTmplStateView>) -> Seq<ApplicationTmplResponseView>
    decreases bundles.len(),
{
    if bundles.len() == 0 {
        Seq::empty()
    } else {
        let rest = tmpl_responses(bundles.drop_last());
        match tmpl_response(bundles.last()) {
            Some(r) => rest.push(r),
            None => rest,
        }
    }
}

/// Answers the question for the bundles.
pub fn get_app_tmpl_list(manager: &AppTmplManager) -> (r: Vec<ApplicationTmplResponse>)
    ensures
        response_views(r@) == tmpl_responses(manager@),
{
    let all = manager.get_app_tmpl_list();
    let ghost views = bundle_views(all@);
    let mut out: Vec<ApplicationTmplResponse> = Vec::new();
    let mut i: usize = 0;
    proof {
        assert(views.take(0) =~= Seq::<AppTmplStateView>::empty());
        assert(response_views(out@) =~= tmpl_responses(views.take(0)));
    }
    while i < all.len()
        invariant
            i <= all.len(),
            views == bundle_views(all@),
            response_views(out@) == tmpl_responses(views.take(i as int)),
        decreases all.len() - i,
    {
        proof {
            assert(views.take(i as int + 1).drop_last() =~= views.take(i as int));
            assert(views.take(i as int + 1).last() == all@[i as int]@);
        }
        match get_app_tmpl_by_id(&all[i]) {
            Some(resp) => {
                let ghost before = response_views(out@);
                out.push(resp);
                proof {
                    assert(response_views(out@) =~= before.push(resp@));
                }
            },
            None => {},
        }
        i += 1;
    }
    proof {
        assert(views.take(i as int) =~= views);
    }
    out
}

/// Why a template of a bundle cannot be served.
#[derive(Debug, Clone, Copy, PartialEq, Eq, Structural)]
pub enum TmplError {
    AppNotFound,
    TmplNotFound,
}

impl TmplError {
    /// The message of the failure.
    pub fn message(&self) -> (r: &'static str)
        ensures
            r@ == (match *self {
                TmplError::AppNotFound => "App not found"@,
                TmplError::TmplNotFound => "Tmpl not found"@,
            }),
    {
        match self {
            TmplError::AppNotFound => "App not found",
            TmplError::TmplNotFound => "Tmpl not found",
        }
    }
}

/// Decides how the template `tmpl` of the bundle `name` is served: as the
/// file `/<tmpl>` below the bundle's `template` directory, where the bundle
/// is known and lists the template.
pub fn get_app_template_by_name(manager: &AppTmplManager, name: &str, tmpl: &str) -> (r: Result<
    String,
    TmplError,
>)
    requires
        manager.wf(),
    ensures
        if !has_bundle(manager@, name@) {
            r == Err::<String, TmplError>(TmplError::AppNotFound)
        } else if !manager@[bundle_index(manager@, name@)].tmpls.contains(tmpl@) {
            r == Err::<String, TmplError>(TmplError::TmplNotFound)
        } else {
            r is Ok && r->Ok_0@ == "/"@ + tmpl@
        },
{
    let app = match manager.get_app_tmpl(name) {
        Some(app) => app,
        None => return Err(TmplError::AppNotFound),
    };
    if !app.has_tmpl(tmpl) {
        return Err(TmplError::TmplNotFound);
    }
    Ok(concat2("/", tmpl))
}

/// The views of a sequence of deployment records.
pub open spec fn info_views(v: Seq<AppDeployInfo>) -> Seq<AppDeployInfoView> {
    v.map_values(|i: AppDeployInfo| i@)
}

/// The records among what the rows of the deployments decode to, in order.
pub open spec fn decoded_infos(rows: Seq<Option<AppDeployInfo>>) -> Seq<AppDeployInfoView>
    decreases rows.len(),
{
    if rows.len() == 0 {
        Seq::empty()
    } else {
        let rest = decoded_infos(rows.drop_last());
        match rows.last() {
            Some(info) => rest.push(info@),
            None => rest,
        }
    }
}

/// Answers the question for the deployments. `rows` holds, row by row, what
/// the row's value decodes to; a row that holds no record is left out.
pub fn list_deploy_app(rows: Vec<Option<AppDeployInfo>>) -> (r: Vec<AppDeployInfo>)
    ensures
        info_views(r@) == decoded_infos(rows@),
{
    let mut out: Vec<AppDeployInfo> = Vec::new();
    let mut i: usize = 0;
    proof {
        assert(rows@.take(0) =~= Seq::<Option<AppDeployInfo>>::empty());
        assert(info_views(out@) =~= decoded_infos(rows@.take(0)));
    }
    while i < rows.len()
        invariant
            i <= rows.len(),
            info_views(out@) == decoded_infos(rows@.take(i as int)),
        decreases rows.len() - i,
    {
        proof {
            assert(rows@.take(i as int + 1).drop_last() =~= rows@.take(i as int));
            assert(rows@.take(i as int + 1).last() == rows@[i as int]);
        }
        match &rows[i] {
            Some(info) => {
                let ghost before = info_views(out@);
                out.push(info.clone());
                proof {
                    assert(info_views(out@) =~= before.push(info@));
                }
            },
            None => {},
        }
        i += 1;
    }
    proof {
        assert(rows@.take(i as int) =~= rows@);
    }
    out
}

} // verus!
