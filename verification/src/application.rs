//! The manifest of an application bundle.

use vstd::prelude::*;
use vstd::string::*;
use crate::text::{clone_opt_string, opt_string_view};

verus! {

/// A question that a bundle asks before it is deployed.
#[derive(Debug)]
pub struct ApplicationTmplQaItem {
    pub id: String,
    pub name: String,
    pub label: String,
    /// Kind of input.
    pub typ: String,
    pub default_value: Option<String>,
}

/// A question as a mathematical value.
pub struct ApplicationTmplQaItemView {
    pub id: Seq<char>,
    pub name: Seq<char>,
    pub label: Seq<char>,
    pub typ: Seq<char>,
    pub default_value: Option<Seq<char>>,
}

impl View for ApplicationTmplQaItem {
    type V = ApplicationTmplQaItemView;

    open spec fn view(&self) -> ApplicationTmplQaItemView {
        ApplicationTmplQaItemView {
            id: self.id@,
            name: self.name@,
            label: self.label@,
            typ: self.typ@,
            default_value: opt_string_view(self.default_value),
        }
    }
}

impl Clone for ApplicationTmplQaItem {
    fn clone(&self) -> (r: Self)
        ensures
            r@ == self@,
    {
        ApplicationTmplQaItem {
            id: self.id.clone(),
            name: self.name.clone(),
            label: self.label.clone(),
            typ: self.typ.clone(),
            default_value: clone_opt_string(&self.default_value),
        }
    }
}

/// The views of a sequence of questions.
pub open spec fn qa_views(items: Seq<ApplicationTmplQaItem>) -> Seq<ApplicationTmplQaItemView> {
    items.map_values(|q: ApplicationTmplQaItem| q@)
}

/// What `application.yaml` holds.
#[derive(Debug)]
pub struct ApplicationTmpl {
    pub name: String,
    pub description: String,
    pub version: Option<String>,
    pub qa: Option<Vec<ApplicationTmplQaItem>>,
}

/// A manifest as a mathematical value.
pub struct ApplicationTmplView {
    pub name: Seq<char>,
    pub description: Seq<char>,
    pub version: Option<Seq<char>>,
    pub qa: Option<Seq<ApplicationTmplQaItemView>>,
}

impl View for ApplicationTmpl {
    type V = ApplicationTmplView;

    open spec fn view(&self) -> ApplicationTmplView {
        ApplicationTmplView {
            name: self.name@,
            description: self.description@,
            version: opt_string_view(self.version),
            qa: match self.qa {
                Some(items) => Some(qa_views(items@)),
                None => None,
            },
        }
    }
}

impl Clone for ApplicationTmpl {
    fn clone(&self) -> (r: Self)
        ensures
            r@ == self@,
    {
        let qa = match &self.qa {
            Some(items) => {
                let mut out: Vec<ApplicationTmplQaItem> = Vec::new();
                let mut i: usize = 0;
                while i < items.len()
                    invariant
                        i <= items.len(),
                        out@.len() == i,
                        forall|j: int| 0 <= j < i ==> out@[j]@ == items@[j]@,
                    decreases items.len() - i,
                {
                    out.push(items[i].clone());
                    i += 1;
                }
                assert(qa_views(out@) =~= qa_views(items@));
                Some(out)
            },
            None => None,
        };
        ApplicationTmpl {
            name: self.name.clone(),
            description: self.description.clone(),
            version: clone_opt_string(&self.version),
            qa,
        }
    }
}

} // verus!
