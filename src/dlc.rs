use vstd::prelude::*;

verus! {

/// Optional downloadable components the audio server can use.
#[derive(Clone, Copy, Debug, PartialEq, Eq, Structural)]
pub enum CrasDlcId {
    CrasDlcSrBt,
    CrasDlcNcAp,
    NumCrasDlc,
}

/// The package name of a component.
pub open spec fn dlc_name(id: CrasDlcId) -> Seq<char> {
    match id {
        CrasDlcId::CrasDlcSrBt => "sr-bt-dlc"@,
        CrasDlcId::CrasDlcNcAp => "nc-ap-dlc"@,
        CrasDlcId::NumCrasDlc => "num"@,
    }
}

impl CrasDlcId {
    pub fn as_str(&self) -> (r: &'static str)
        ensures
            r@ == dlc_name(*self),
    {
        match self {
            CrasDlcId::CrasDlcSrBt => "sr-bt-dlc",
            CrasDlcId::CrasDlcNcAp => "nc-ap-dlc",
            CrasDlcId::NumCrasDlc => "num",
        }
    }
}

} // verus!
