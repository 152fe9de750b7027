//! The flat hardware-information catalogue: identity of each block and the
//! lookup that binds a hierarchy name and block name to a catalogue key.
//!
//! The catalogue arrives as plain entries extracted from the external JSON
//! document by the caller, in the document's key order.

use vstd::prelude::*;

use crate::errors::Error;
use crate::text::{spec_contains, str_contains, str_eq};

verus! {

/// The identity tag of one hardware block, as the catalogue names it.
#[derive(Debug)]
pub struct HwIdentity {
    pub vendor: String,
    pub library: String,
    pub name: String,
}

impl HwIdentity {
    /// Whether this identity tag names exactly the given vendor, library
    /// and block name.
    pub fn matches(&self, vendor: &str, library: &str, name: &str) -> (r: bool)
        ensures
            r == (self.vendor@ == vendor@ && self.library@ == library@ && self.name@
                == name@),
    {
        str_eq(self.vendor.as_str(), vendor) && str_eq(self.library.as_str(), library)
            && str_eq(self.name.as_str(), name)
    }
}

/// One entry of the catalogue: its key (the instance path) and the block
/// name it carries, absent when the document gives none or not a string.
#[derive(Debug)]
pub struct HwEntry {
    pub key: String,
    pub name: Option<String>,
}

/// The key bound to `hier` and `hw`: the first entry whose key contains
/// `hier` and whose name equals `hw`.  An entry whose key contains `hier`
/// but carries no name stops the search with [`Error::Configuration`]; no
/// match at all gives [`Error::NotFound`].
pub open spec fn spec_match_hw(entries: Seq<HwEntry>, hier: Seq<char>, hw: Seq<char>) -> Result<
    Seq<char>,
    Error,
>
    decreases entries.len(),
{
    if entries.len() == 0 {
        Err(Error::NotFound)
    } else {
        let e = entries.first();
        if spec_contains(e.key@, hier) {
            if !(e.name is Some) {
                Err(Error::Configuration)
            } else if e.name->0@ == hw {
                Ok(e.key@)
            } else {
                spec_match_hw(entries.drop_first(), hier, hw)
            }
        } else {
            spec_match_hw(entries.drop_first(), hier, hw)
        }
    }
}

/// Find the catalogue key whose instance path contains `hier_name` and
/// whose block name is `hw_name`, exactly as [`spec_match_hw`] states it.
pub fn match_hw(entries: &Vec<HwEntry>, hier_name: &str, hw_name: &str) -> (r: Result<
    String,
    Error,
>)
    ensures
        match r {
            Ok(k) => spec_match_hw(entries@, hier_name@, hw_name@) == Result::<
                Seq<char>,
                Error,
            >::Ok(k@),
            Err(e) => spec_match_hw(entries@, hier_name@, hw_name@) == Result::<
                Seq<char>,
                Error,
            >::Err(e),
        },
{
    let mut i: usize = 0;
    proof {
        assert(entries@.skip(0) =~= entries@);
    }
    while i < entries.len()
        invariant
            i <= entries@.len(),
            spec_match_hw(entries@, hier_name@, hw_name@) == spec_match_hw(
                entries@.skip(i as int),
                hier_name@,
                hw_name@,
            ),
        decreases entries@.len() - i,
    {
        let ghost rest = entries@.skip(i as int);
        proof {
            assert(rest.first() == entries@[i as int]);
            assert(rest.drop_first() =~= entries@.skip(i + 1));
        }
        let e = &entries[i];
        if str_contains(e.key.as_str(), hier_name) {
            match &e.name {
                None => {
                    return Err(Error::Configuration);
                },
                Some(n) => {
                    if str_eq(n.as_str(), hw_name) {
                        return Ok(e.key.clone());
                    }
                },
            }
        }
        i = i + 1;
    }
    proof {
        assert(entries@.skip(entries@.len() as int) =~= Seq::<HwEntry>::empty());
    }
    Err(Error::NotFound)
}

} // verus!
