//! The request shim: method, path, optional payload and a type-keyed
//! property bag for middleware annotations.

use vstd::prelude::*;

verus! {

/// A type-keyed property bag. Entries are read and written through the
/// typed interface of the map it holds.
#[verifier::external_body]
pub struct PropertyBag {
    pub map: typemap::TypeMap,
}

/// The number of entries in a property bag.
pub uninterp spec fn bag_len(b: &PropertyBag) -> nat;

/// Relies on `typemap::TypeMap::new`: a map with no entries.
#[verifier::external_body]
fn empty_bag() -> (r: PropertyBag)
    ensures
        bag_len(&r) == 0,
{
    PropertyBag { map: typemap::TypeMap::new() }
}

/// An incoming request.
pub struct EightFishRequest {
    method: String,
    path: String,
    data: Option<String>,
    ext: PropertyBag,
}

impl EightFishRequest {
    pub closed spec fn method_spec(&self) -> Seq<char> {
        self.method@
    }

    pub closed spec fn path_spec(&self) -> Seq<char> {
        self.path@
    }

    pub closed spec fn data_spec(&self) -> Option<String> {
        self.data
    }

    pub closed spec fn ext_spec(&self) -> &PropertyBag {
        &self.ext
    }

    /// A request with an empty property bag.
    pub fn new(method: String, path: String, data: Option<String>) -> (r: EightFishRequest)
        ensures
            r.method_spec() == method@,
            r.path_spec() == path@,
            r.data_spec() == data,
            bag_len(r.ext_spec()) == 0,
    {
        EightFishRequest { method, path, data, ext: empty_bag() }
    }

    /// The HTTP method.
    pub fn method(&self) -> (r: &String)
        ensures
            r@ == self.method_spec(),
    {
        &self.method
    }

    /// The HTTP path.
    pub fn path(&self) -> (r: &String)
        ensures
            r@ == self.path_spec(),
    {
        &self.path
    }

    /// The payload, if any.
    pub fn data(&self) -> (r: &Option<String>)
        ensures
            *r == self.data_spec(),
    {
        &self.data
    }

    /// The property bag.
    pub fn ext(&self) -> (r: &PropertyBag)
        ensures
            r == self.ext_spec(),
    {
        &self.ext
    }

    /// The property bag, for changes; the rest of the request stays as it is.
    pub fn ext_mut(&mut self) -> (r: &mut PropertyBag)
        ensures
            *r == *old(self).ext_spec(),
            *final(r) == *final(self).ext_spec(),
            final(self).method_spec() == old(self).method_spec(),
            final(self).path_spec() == old(self).path_spec(),
            final(self).data_spec() == old(self).data_spec(),
    {
        &mut self.ext
    }
}

} // verus!
