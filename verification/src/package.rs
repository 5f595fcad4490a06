//! Package identifiers.

use vstd::prelude::*;

verus! {

/// The name of a package within the cache namespace: an opaque token that is
/// never empty. It is only ever used as a lookup key.
#[derive(Debug)]
pub struct PackageIdentifier {
    name: String,
}

impl View for PackageIdentifier {
    type V = Seq<char>;

    closed spec fn view(&self) -> Seq<char> {
        self.name@
    }
}

impl Clone for PackageIdentifier {
    fn clone(&self) -> (copy: Self)
        ensures
            copy@ == self@,
    {
        proof {
            use_type_invariant(self);
        }
        PackageIdentifier { name: self.name.clone() }
    }
}

impl PackageIdentifier {
    #[verifier::type_invariant]
    spec fn non_empty(self) -> bool {
        self.name@.len() > 0
    }

    /// Accepts a token as a package identifier. The empty token names no
    /// package and is the only one refused.
    pub fn new(token: &str) -> (id: Option<PackageIdentifier>)
        ensures
            id is Some <==> token@.len() > 0,
            id matches Some(p) ==> p@ == token@,
    {
        if token.is_empty() {
            None
        } else {
            Some(PackageIdentifier { name: token.to_owned() })
        }
    }

    /// The identifier's text.
    pub fn as_str(&self) -> (text: &str)
        ensures
            text@ == self@,
            text@.len() > 0,
    {
        proof {
            use_type_invariant(self);
        }
        self.name.as_str()
    }
}

} // verus!
