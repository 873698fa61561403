//! The defined bits of the keyboard [`Modifier`](crate::event::Modifier)
//! bitmask.  Masks combine with bitwise or.

use vstd::prelude::*;

use crate::event::Modifier;

verus! {

pub const SHIFT: Modifier = 1;

pub const CTRL: Modifier = 2;

pub const ALT: Modifier = 4;

pub const SUPER: Modifier = 8;

} // verus!
