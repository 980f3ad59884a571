//! The options of a list request, and the query pairs they become.

use crate::location::pairs_view;
use crate::resources::metadata::{copy_opt_string, opt_string_view};
use crate::text::{decimal, decimal_string};
use vstd::prelude::*;

verus! {

/// The options of a list request. Each is sent only where it was set.
#[derive(Clone, Debug)]
pub struct ListQuery {
    field_selector: Option<String>,
    label_selector: Option<String>,
    resource_version: Option<String>,
    timeout_seconds: Option<String>,
}

/// The mathematical content of a [`ListQuery`].
pub struct ListQueryView {
    pub field_selector: Option<Seq<char>>,
    pub label_selector: Option<Seq<char>>,
    pub resource_version: Option<Seq<char>>,
    pub timeout_seconds: Option<Seq<char>>,
}

/// The pair of `name` and `value` where there is a value, else nothing.
pub open spec fn optional_pair(name: Seq<char>, value: Option<Seq<char>>) -> Seq<
    (Seq<char>, Seq<char>),
> {
    match value {
        Some(v) => seq![(name, v)],
        None => Seq::empty(),
    }
}

impl ListQueryView {
    /// The query without any option set.
    pub open spec fn empty() -> ListQueryView {
        ListQueryView {
            field_selector: None,
            label_selector: None,
            resource_version: None,
            timeout_seconds: None,
        }
    }

    /// The query pairs of the options that are set, in the order
    /// `fieldSelector`, `labelSelector`, `resourceVersion`, `timeoutSeconds`,
    /// which is the alphabetical order of the names.
    pub open spec fn pairs(self) -> Seq<(Seq<char>, Seq<char>)> {
        optional_pair("fieldSelector"@, self.field_selector) + optional_pair(
            "labelSelector"@,
            self.label_selector,
        ) + optional_pair("resourceVersion"@, self.resource_version) + optional_pair(
            "timeoutSeconds"@,
            self.timeout_seconds,
        )
    }
}

impl View for ListQuery {
    type V = ListQueryView;

    closed spec fn view(&self) -> ListQueryView {
        ListQueryView {
            field_selector: opt_string_view(self.field_selector),
            label_selector: opt_string_view(self.label_selector),
            resource_version: opt_string_view(self.resource_version),
            timeout_seconds: opt_string_view(self.timeout_seconds),
        }
    }
}

impl Default for ListQuery {
    fn default() -> (query: ListQuery)
        ensures
            query@ == ListQueryView::empty(),
    {
        ListQuery {
            field_selector: None,
            label_selector: None,
            resource_version: None,
            timeout_seconds: None,
        }
    }
}

/// Appends the pair of `name` and `value` to `pairs` where there is a value.
fn push_optional(pairs: &mut Vec<(String, String)>, name: &str, value: &Option<String>)
    ensures
        pairs_view(final(pairs)@) == pairs_view(old(pairs)@) + optional_pair(
            name@,
            opt_string_view(*value),
        ),
{
    if let Some(v) = value {
        pairs.push((String::from_str(name), v.clone()));
    }
}

impl ListQuery {
    /// The query pairs of the options that are set, in the alphabetical
    /// order of their names.
    pub fn as_query_pairs(&self) -> (pairs: Vec<(String, String)>)
        ensures
            pairs_view(pairs@) == self@.pairs(),
    {
        let mut pairs: Vec<(String, String)> = Vec::new();
        push_optional(&mut pairs, "fieldSelector", &self.field_selector);
        push_optional(&mut pairs, "labelSelector", &self.label_selector);
        push_optional(&mut pairs, "resourceVersion", &self.resource_version);
        push_optional(&mut pairs, "timeoutSeconds", &self.timeout_seconds);
        pairs
    }

    /// This query, restricted to the resources whose fields match the
    /// selector.
    pub fn field_selector(self, field_selector: &str) -> (query: ListQuery)
        ensures
            query@ == (ListQueryView { field_selector: Some(field_selector@), ..self@ }),
    {
        let mut query = self;
        query.field_selector = Some(String::from_str(field_selector));
        query
    }

    /// A copy of this query, restricted to the resources whose labels match
    /// the selector.
    pub fn label_selector(&self, label_selector: &str) -> (query: ListQuery)
        ensures
            query@ == (ListQueryView { label_selector: Some(label_selector@), ..self@ }),
    {
        ListQuery {
            field_selector: copy_opt_string(&self.field_selector),
            label_selector: Some(String::from_str(label_selector)),
            resource_version: copy_opt_string(&self.resource_version),
            timeout_seconds: copy_opt_string(&self.timeout_seconds),
        }
    }

    /// A copy of this query that asks for the given resource version.
    pub fn resource_version(&self, resource_version: &str) -> (query: ListQuery)
        ensures
            query@ == (ListQueryView { resource_version: Some(resource_version@), ..self@ }),
    {
        ListQuery {
            field_selector: copy_opt_string(&self.field_selector),
            label_selector: copy_opt_string(&self.label_selector),
            resource_version: Some(String::from_str(resource_version)),
            timeout_seconds: copy_opt_string(&self.timeout_seconds),
        }
    }

    /// A copy of this query with a timeout in seconds, sent in decimal.
    pub fn timeout_seconds(&self, timeout_seconds: u32) -> (query: ListQuery)
        ensures
            query@ == (ListQueryView {
                timeout_seconds: Some(decimal(timeout_seconds as nat)),
                ..self@
            }),
    {
        ListQuery {
            field_selector: copy_opt_string(&self.field_selector),
            label_selector: copy_opt_string(&self.label_selector),
            resource_version: copy_opt_string(&self.resource_version),
            timeout_seconds: Some(decimal_string(timeout_seconds)),
        }
    }

    /// A copy of this query.
    pub fn copy(&self) -> (query: ListQuery)
        ensures
            query@ == self@,
    {
        ListQuery {
            field_selector: copy_opt_string(&self.field_selector),
            label_selector: copy_opt_string(&self.label_selector),
            resource_version: copy_opt_string(&self.resource_version),
            timeout_seconds: copy_opt_string(&self.timeout_seconds),
        }
    }
}

} // verus!
