//! Types that compiled models refer to.
use vstd::prelude::*;

verus! {

/// An empty object, such as `{}` in a JSON body. Reading one ignores any
/// fields it does not expect.
#[derive(Clone, Copy, Debug, PartialEq, Eq, Structural)]
pub struct EmptyModel {}

} // verus!
