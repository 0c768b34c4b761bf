use vstd::prelude::*;

verus! {

/// The buffer-usage hint handed to the native API when vertex data is
/// uploaded.
#[derive(Debug, Copy, Clone, PartialEq, Eq, Structural)]
pub enum Usage {
    StaticDraw,
    DynamicDraw,
    StreamDraw,
}

} // verus!
