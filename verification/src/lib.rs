use vstd::prelude::*;

pub mod codec;
pub mod model;
pub mod services;
pub mod text;
pub mod ui;

verus! {
}
