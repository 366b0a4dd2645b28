//! Ready-made buttons

use vstd::prelude::*;
use super::TextButton;
use crate::widget::CoreData;

verus! {

/// A button labelled "Ok".
pub fn ok<R, H: Fn() -> R>(handler: H) -> (b: TextButton<H>)
    ensures
        b.msg() == "Ok",
        b.handler() == handler,
        b.core_data() == CoreData::initial(),
{
    TextButton::new("Ok", handler)
}

} // verus!
