//! The indices by which the plugin names its parameters.

use vstd::prelude::*;

verus! {

/// A parameter of the effect: one of a closed set of fixed parameters, or a
/// parameter created at run time, named by its offset.
#[derive(Debug, PartialEq, PartialOrd, Clone, Copy, Hash, Eq, Structural)]
pub enum ParamIdx {
    ScriptGroupStart,
    LoadButton,
    UnloadButton,
    SetVenv,
    UnsetVenv,
    ReloadButton,
    ScriptGroupEnd,
    IsImageFilter,
    DebugGroupBegin,
    ShowDebug,
    DebugOffset,
    TemporalWindow,
    DebugGroupEnd,
    ContinuousRenderGroupBegin,
    StartRender,
    CancelRender,
    ContinuousRenderGroupEnd,
    ParametersStart,
    ParametersEnd,
    Dynamic(i32),
}

/// The number of the first fixed parameter.
pub const FIRST_FIXED_INDEX: i32 = 1;

/// The number of the last fixed parameter.
pub const LAST_FIXED_INDEX: i32 = 19;

impl ParamIdx {
    /// The number of a fixed parameter: they are numbered from 1 in the order
    /// of their declaration. A dynamic parameter has none.
    pub open spec fn spec_fixed_index(self) -> Option<i32> {
        match self {
            ParamIdx::ScriptGroupStart => Some(1i32),
            ParamIdx::LoadButton => Some(2i32),
            ParamIdx::UnloadButton => Some(3i32),
            ParamIdx::SetVenv => Some(4i32),
            ParamIdx::UnsetVenv => Some(5i32),
            ParamIdx::ReloadButton => Some(6i32),
            ParamIdx::ScriptGroupEnd => Some(7i32),
            ParamIdx::IsImageFilter => Some(8i32),
            ParamIdx::DebugGroupBegin => Some(9i32),
            ParamIdx::ShowDebug => Some(10i32),
            ParamIdx::DebugOffset => Some(11i32),
            ParamIdx::TemporalWindow => Some(12i32),
            ParamIdx::DebugGroupEnd => Some(13i32),
            ParamIdx::ContinuousRenderGroupBegin => Some(14i32),
            ParamIdx::StartRender => Some(15i32),
            ParamIdx::CancelRender => Some(16i32),
            ParamIdx::ContinuousRenderGroupEnd => Some(17i32),
            ParamIdx::ParametersStart => Some(18i32),
            ParamIdx::ParametersEnd => Some(19i32),
            ParamIdx::Dynamic(_) => None,
        }
    }

    /// The offset of a dynamic parameter. A fixed parameter has none.
    pub open spec fn spec_dynamic_offset(self) -> Option<i32> {
        match self {
            ParamIdx::Dynamic(offset) => Some(offset),
            _ => None,
        }
    }

    /// See [`ParamIdx::spec_fixed_index`].
    #[verifier::when_used_as_spec(spec_fixed_index)]
    pub fn fixed_index(self) -> (index: Option<i32>)
        ensures
            index == self.spec_fixed_index(),
    {
        match self {
            ParamIdx::ScriptGroupStart => Some(1),
            ParamIdx::LoadButton => Some(2),
            ParamIdx::UnloadButton => Some(3),
            ParamIdx::SetVenv => Some(4),
            ParamIdx::UnsetVenv => Some(5),
            ParamIdx::ReloadButton => Some(6),
            ParamIdx::ScriptGroupEnd => Some(7),
            ParamIdx::IsImageFilter => Some(8),
            ParamIdx::DebugGroupBegin => Some(9),
            ParamIdx::ShowDebug => Some(10),
            ParamIdx::DebugOffset => Some(11),
            ParamIdx::TemporalWindow => Some(12),
            ParamIdx::DebugGroupEnd => Some(13),
            ParamIdx::ContinuousRenderGroupBegin => Some(14),
            ParamIdx::StartRender => Some(15),
            ParamIdx::CancelRender => Some(16),
            ParamIdx::ContinuousRenderGroupEnd => Some(17),
            ParamIdx::ParametersStart => Some(18),
            ParamIdx::ParametersEnd => Some(19),
            ParamIdx::Dynamic(_) => None,
        }
    }

    /// See [`ParamIdx::spec_dynamic_offset`].
    #[verifier::when_used_as_spec(spec_dynamic_offset)]
    pub fn dynamic_offset(self) -> (offset: Option<i32>)
        ensures
            offset == self.spec_dynamic_offset(),
    {
        match self {
            ParamIdx::Dynamic(offset) => Some(offset),
            _ => None,
        }
    }

    /// The fixed parameter with the given number: `Some` exactly for the
    /// numbers from [`FIRST_FIXED_INDEX`] to [`LAST_FIXED_INDEX`], and then
    /// the parameter whose [`ParamIdx::fixed_index`] is that number.
    pub fn from_fixed_index(index: i32) -> (param: Option<ParamIdx>)
        ensures
            param is Some <==> FIRST_FIXED_INDEX <= index <= LAST_FIXED_INDEX,
            param matches Some(p) ==> p.spec_fixed_index() == Some(index),
    {
        match index {
            1 => Some(ParamIdx::ScriptGroupStart),
            2 => Some(ParamIdx::LoadButton),
            3 => Some(ParamIdx::UnloadButton),
            4 => Some(ParamIdx::SetVenv),
            5 => Some(ParamIdx::UnsetVenv),
            6 => Some(ParamIdx::ReloadButton),
            7 => Some(ParamIdx::ScriptGroupEnd),
            8 => Some(ParamIdx::IsImageFilter),
            9 => Some(ParamIdx::DebugGroupBegin),
            10 => Some(ParamIdx::ShowDebug),
            11 => Some(ParamIdx::DebugOffset),
            12 => Some(ParamIdx::TemporalWindow),
            13 => Some(ParamIdx::DebugGroupEnd),
            14 => Some(ParamIdx::ContinuousRenderGroupBegin),
            15 => Some(ParamIdx::StartRender),
            16 => Some(ParamIdx::CancelRender),
            17 => Some(ParamIdx::ContinuousRenderGroupEnd),
            18 => Some(ParamIdx::ParametersStart),
            19 => Some(ParamIdx::ParametersEnd),
            _ => None,
        }
    }

    /// The slot under which the input layer is checked out.
    pub fn input_layer_checkout_id() -> (param: ParamIdx)
        ensures
            param == ParamIdx::Dynamic(255),
    {
        ParamIdx::Dynamic(255)
    }

    /// Every parameter is fixed or dynamic and never both, and a fixed
    /// parameter is known by its number: two with the same number are the same.
    pub proof fn law_fixed_indices_are_distinct(a: ParamIdx, b: ParamIdx)
        ensures
            a.spec_fixed_index() is Some <==> a.spec_dynamic_offset() is None,
            a.spec_fixed_index() matches Some(n) ==> FIRST_FIXED_INDEX <= n <= LAST_FIXED_INDEX,
            a.spec_fixed_index() is Some && a.spec_fixed_index() == b.spec_fixed_index() ==> a == b,
    {
    }
}

} // verus!
