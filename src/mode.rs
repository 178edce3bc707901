use vstd::prelude::*;

verus! {

/// The enforcement posture of one profile, as the status tool reports it.
#[derive(Clone, Copy, Debug, PartialEq, Eq, Structural)]
pub enum Mode {
    Enforce,
    Complain,
    Audit,
    Disable,
    Kill,
}

/// The administrative tool that moves a profile into `m`; `Kill` has none.
pub open spec fn tool_spec(m: Mode) -> Option<Seq<char>> {
    match m {
        Mode::Enforce => Some("aa-enforce"@),
        Mode::Complain => Some("aa-complain"@),
        Mode::Audit => Some("aa-audit"@),
        Mode::Disable => Some("aa-disable"@),
        Mode::Kill => None,
    }
}

impl Mode {
    /// Name of the external tool that puts a profile into this mode, if any.
    pub fn tool(self) -> (r: Option<&'static str>)
        ensures
            match r {
                Some(t) => tool_spec(self) == Some(t@),
                None => tool_spec(self).is_none(),
            },
    {
        match self {
            Mode::Enforce => Some("aa-enforce"),
            Mode::Complain => Some("aa-complain"),
            Mode::Audit => Some("aa-audit"),
            Mode::Disable => Some("aa-disable"),
            Mode::Kill => None,
        }
    }
}

} // verus!
