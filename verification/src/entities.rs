//! Small entity types shared with the surrounding node.

use vstd::prelude::*;

verus! {

/// A client application attached to a status, both fields optional.
#[derive(Clone, Debug, PartialEq, Eq, Default)]
pub struct Application {
    pub name: Option<String>,
    pub website: Option<String>,
}

/// Which instance a query is about: this node or a remote one named by
/// its domain.
#[derive(Clone, Debug, PartialEq, Eq)]
pub enum InstanceType {
    Local,
    Remote(String),
}

} // verus!
