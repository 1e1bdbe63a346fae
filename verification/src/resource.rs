//! Metadata of Kubernetes resources and the checks that the library makes on it.

use vstd::prelude::*;

use crate::error::Error;

verus! {

/// The metadata of a Kubernetes resource that the library reads.
#[derive(Debug)]
pub struct ObjectMeta {
    pub name: Option<String>,
    pub namespace: Option<String>,
    pub uid: Option<String>,
    pub resource_version: Option<String>,
    pub generation: Option<i64>,
}

impl Default for ObjectMeta {
    fn default() -> (m: ObjectMeta)
        ensures
            m.name.is_none(),
            m.namespace.is_none(),
            m.uid.is_none(),
            m.resource_version.is_none(),
            m.generation.is_none(),
    {
        ObjectMeta {
            name: None,
            namespace: None,
            uid: None,
            resource_version: None,
            generation: None,
        }
    }
}

pub(crate) fn clone_opt_string(o: &Option<String>) -> (r: Option<String>)
    ensures
        r == *o,
{
    match o {
        Some(s) => Some(s.clone()),
        None => None,
    }
}

impl Clone for ObjectMeta {
    fn clone(&self) -> (m: ObjectMeta)
        ensures
            m == *self,
    {
        ObjectMeta {
            name: clone_opt_string(&self.name),
            namespace: clone_opt_string(&self.namespace),
            uid: clone_opt_string(&self.uid),
            resource_version: clone_opt_string(&self.resource_version),
            generation: self.generation,
        }
    }
}

/// The message of the error for a resource without a namespace.
pub open spec fn not_namespaced_message() -> Seq<char> {
    "Expected resource to be namespaced. Can't deploy to an unknown namespace."@
}

/// Extracts the name and the namespace of a resource, turning their absence into the
/// library's errors.
pub trait TryResource {
    /// The name of the resource, if it has one.
    spec fn name_of(&self) -> Option<Seq<char>>;

    /// The namespace of the resource, if it has one.
    spec fn namespace_of(&self) -> Option<Seq<char>>;

    /// The name of the resource; `Error::UnnamedObject` when it has none.
    fn try_name(&self) -> (r: Result<&str, Error>)
        ensures
            match self.name_of() {
                Some(n) => r matches Ok(s) && s@ == n,
                None => r matches Err(Error::UnnamedObject),
            },
    ;

    /// The namespace of the resource; `Error::UserInput` when it has none.
    fn try_namespace(&self) -> (r: Result<String, Error>)
        ensures
            match self.namespace_of() {
                Some(n) => r matches Ok(s) && s@ == n,
                None => r matches Err(Error::UserInput(m)) && m@ == not_namespaced_message(),
            },
    ;
}

impl TryResource for ObjectMeta {
    open spec fn name_of(&self) -> Option<Seq<char>> {
        match self.name {
            Some(n) => Some(n@),
            None => None,
        }
    }

    open spec fn namespace_of(&self) -> Option<Seq<char>> {
        match self.namespace {
            Some(n) => Some(n@),
            None => None,
        }
    }

    fn try_name(&self) -> (r: Result<&str, Error>) {
        match &self.name {
            Some(n) => Ok(n.as_str()),
            None => Err(Error::UnnamedObject),
        }
    }

    fn try_namespace(&self) -> (r: Result<String, Error>) {
        match &self.namespace {
            Some(n) => Ok(n.clone()),
            None => Err(
                Error::UserInput(
                    "Expected resource to be namespaced. Can't deploy to an unknown namespace.".to_owned(),
                ),
            ),
        }
    }
}

} // verus!
