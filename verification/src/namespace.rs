use vstd::prelude::*;

verus! {

use vstd::string::StringExecFns;

/// The target of a mutating request: a tenant organization together with
/// the sub-resource (repository) inside it. Grants carried by a token are
/// compared against the canonical `org/name` rendering, or against the
/// bare organization alone.
pub struct Namespace {
    pub org: String,
    pub name: String,
}

impl Namespace {
    /// The canonical string form: organization and sub-resource joined by
    /// the separator. This is the form exact grants are compared against.
    pub open spec fn canon(self) -> Seq<char> {
        self.org@ + "/"@ + self.name@
    }

    pub fn new(org: String, name: String) -> (r: Namespace)
        ensures
            r.org@ == org@,
            r.name@ == name@,
    {
        Namespace { org, name }
    }

    /// The organization component alone, the unit of wildcard grants.
    pub fn org(&self) -> (r: &String)
        ensures
            r@ == self.org@,
    {
        &self.org
    }

    /// Renders the canonical form.
    pub fn to_string(&self) -> (r: String)
        ensures
            r@ == self.canon(),
    {
        let mut s = self.org.clone();
        s.append("/");
        s.append(self.name.as_str());
        s
    }
}

} // verus!
