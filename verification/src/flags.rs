use vstd::prelude::*;

verus! {

/// Built-in flags
#[derive(Clone, Copy, Debug, PartialEq, Eq, Structural)]
pub enum Flags {
    Rainbow,
    Transgender,
    Bisexual,
    Pansexual,
    Nonbinary,
    Lesbian,
    Agender,
    Asexual,
    Genderqueer,
    Genderfluid,
    Aromantic,
    Polyamory,
}

/// The ordered band colors of each built-in flag, top band first.
pub open spec fn flag_colors(f: Flags) -> Seq<(u8, u8, u8)> {
    match f {
        Flags::Rainbow => seq![
            (229u8, 0u8, 0u8),
            (255u8, 141u8, 0u8),
            (255u8, 238u8, 0u8),
            (2u8, 129u8, 33u8),
            (0u8, 76u8, 255u8),
            (119u8, 0u8, 136u8),
        ],
        Flags::Transgender => seq![
            (91u8, 207u8, 251u8),
            (245u8, 171u8, 185u8),
            (255u8, 255u8, 255u8),
            (245u8, 171u8, 185u8),
            (91u8, 207u8, 251u8),
        ],
        Flags::Bisexual => seq![(214u8, 2u8, 112u8), (155u8, 79u8, 150u8), (0u8, 56u8, 168u8)],
        Flags::Pansexual => seq![(255u8, 28u8, 141u8), (255u8, 215u8, 0u8), (26u8, 179u8, 255u8)],
        Flags::Nonbinary => seq![
            (252u8, 244u8, 49u8),
            (252u8, 252u8, 252u8),
            (157u8, 89u8, 210u8),
            (40u8, 40u8, 40u8),
        ],
        Flags::Lesbian => seq![
            (214u8, 40u8, 0u8),
            (255u8, 155u8, 86u8),
            (255u8, 255u8, 255u8),
            (212u8, 98u8, 166u8),
            (164u8, 0u8, 98u8),
        ],
        Flags::Agender => seq![
            (0u8, 0u8, 0u8),
            (186u8, 186u8, 186u8),
            (255u8, 255u8, 255u8),
            (186u8, 244u8, 132u8),
            (255u8, 255u8, 255u8),
            (186u8, 186u8, 186u8),
            (0u8, 0u8, 0u8),
        ],
        Flags::Asexual => seq![
            (0u8, 0u8, 0u8),
            (164u8, 164u8, 164u8),
            (255u8, 255u8, 255u8),
            (129u8, 0u8, 129u8),
        ],
        Flags::Genderqueer => seq![
            (181u8, 127u8, 221u8),
            (255u8, 255u8, 255u8),
            (73u8, 130u8, 30u8),
        ],
        Flags::Genderfluid => seq![
            (254u8, 118u8, 162u8),
            (255u8, 255u8, 255u8),
            (191u8, 18u8, 215u8),
            (0u8, 0u8, 0u8),
            (48u8, 60u8, 190u8),
        ],
        Flags::Aromantic => seq![
            (59u8, 167u8, 64u8),
            (168u8, 212u8, 122u8),
            (255u8, 255u8, 255u8),
            (171u8, 171u8, 171u8),
            (0u8, 0u8, 0u8),
        ],
        Flags::Polyamory => seq![(0u8, 0u8, 255u8), (255u8, 0u8, 0u8), (0u8, 0u8, 0u8)],
    }
}

impl Flags {
    /// The flag's palette as a vector of RGB triples, top band first; every
    /// built-in flag has at least one band.
    pub fn palette(&self) -> (r: Vec<(u8, u8, u8)>)
        ensures
            r@ == flag_colors(*self),
            r@.len() >= 1,
    {
        let v: Vec<(u8, u8, u8)> = match self {
            Flags::Rainbow => vec![
                (229, 0, 0),
                (255, 141, 0),
                (255, 238, 0),
                (2, 129, 33),
                (0, 76, 255),
                (119, 0, 136),
            ],
            Flags::Transgender => vec![
                (91, 207, 251),
                (245, 171, 185),
                (255, 255, 255),
                (245, 171, 185),
                (91, 207, 251),
            ],
            Flags::Bisexual => vec![(214, 2, 112), (155, 79, 150), (0, 56, 168)],
            Flags::Pansexual => vec![(255, 28, 141), (255, 215, 0), (26, 179, 255)],
            Flags::Nonbinary => vec![
                (252, 244, 49),
                (252, 252, 252),
                (157, 89, 210),
                (40, 40, 40),
            ],
            Flags::Lesbian => vec![
                (214, 40, 0),
                (255, 155, 86),
                (255, 255, 255),
                (212, 98, 166),
                (164, 0, 98),
            ],
            Flags::Agender => vec![
                (0, 0, 0),
                (186, 186, 186),
                (255, 255, 255),
                (186, 244, 132),
                (255, 255, 255),
                (186, 186, 186),
                (0, 0, 0),
            ],
            Flags::Asexual => vec![(0, 0, 0), (164, 164, 164), (255, 255, 255), (129, 0, 129)],
            Flags::Genderqueer => vec![(181, 127, 221), (255, 255, 255), (73, 130, 30)],
            Flags::Genderfluid => vec![
                (254, 118, 162),
                (255, 255, 255),
                (191, 18, 215),
                (0, 0, 0),
                (48, 60, 190),
            ],
            Flags::Aromantic => vec![
                (59, 167, 64),
                (168, 212, 122),
                (255, 255, 255),
                (171, 171, 171),
                (0, 0, 0),
            ],
            Flags::Polyamory => vec![(0, 0, 255), (255, 0, 0), (0, 0, 0)],
        };
        proof {
            assert(v@ =~= flag_colors(*self));
        }
        v
    }
}

} // verus!
