//! The mapping selector: parses one configuration token into a strategy
//! descriptor and instantiates the strategy bound to the physical chain
//! geometry.

use vstd::prelude::*;
use vstd::arithmetic::div_mod::lemma_mod_add_multiples_vanish;
use vstd::string::{StrSliceExecFns, StringExecFns};
use crate::mapper::NamedPixelMapper;
use crate::mirror::MirrorPixelMapper;
use crate::rotate::{valid_angle, RotatePixelMapper};
use crate::text::{
    contains_colon, decimal_string, find_colon, first_colon, is_usize_literal, parse_usize,
    prefix_matches, spec_decimal, usize_literal_val,
};
use crate::ufold::{UArrangeMapper, UFoldConfigError};

verus! {

/// A strategy descriptor, parsed once from one configuration token.
///
/// You can apply multiple mappers in your configuration, and they will be
/// applied in the order you specify: for example, first mirror the panels
/// horizontally and then rotate the resulting screen.
#[derive(Debug, Clone, Copy, PartialEq, Eq, Hash, Structural)]
pub enum NamedPixelMapperType {
    /// Mirror the output.  The token `Mirror:H` (or `Mirror:h`) selects a
    /// horizontal mirror, `Mirror:V` (or `Mirror:v`) a vertical one.
    Mirror(bool),
    /// Rotate the screen by the given angle in degrees, a multiple of 90,
    /// normalized into `[0, 360)`: the token `Rotate:90` for a quarter
    /// turn.
    Rotate(usize),
    /// Fold a long chain of panels into a U shape, selected by the token
    /// `U-mapper`: the chain bends around after half of its panels to
    /// continue below, showing a half-width, double-height block while
    /// still using one data chain.
    UMapper,
}

/// Why a configuration token was rejected.
#[derive(Debug, PartialEq, Eq)]
pub enum MapperParseError {
    /// The parameter after `Mirror:` names neither axis.
    InvalidMirrorParam(String),
    /// The parameter after `Rotate:` is missing or not an unsigned integer.
    InvalidAngle,
    /// The rotation angle is not a multiple of 90 degrees.
    NotMultipleOf90(usize),
    /// The token names no known mapping.
    InvalidMapping(String),
}

/// What parsing one configuration token yields, stated over the token
/// text: either a descriptor, or the rejection the grammar calls for.
pub enum ParseOutcome {
    /// The token parses to this descriptor.
    Parsed(NamedPixelMapperType),
    /// The text after `Mirror:` names neither axis.
    BadMirrorParam(Seq<char>),
    /// The text after `Rotate:` is not an unsigned integer.
    BadAngle,
    /// The rotation angle is not a multiple of 90 degrees.
    BadMultiple(int),
    /// The command, or the whole token, names no known mapping.
    BadToken(Seq<char>),
}

/// What the text after `Mirror:` yields: `H` or `h` the horizontal mirror,
/// `V` or `v` the vertical one, anything else a rejection naming the text.
pub open spec fn spec_parse_mirror_param(p: Seq<char>) -> ParseOutcome {
    if p == "H"@ || p == "h"@ {
        ParseOutcome::Parsed(NamedPixelMapperType::Mirror(true))
    } else if p == "V"@ || p == "v"@ {
        ParseOutcome::Parsed(NamedPixelMapperType::Mirror(false))
    } else {
        ParseOutcome::BadMirrorParam(p)
    }
}

/// What the text after `Rotate:` yields: an unsigned integer that is a
/// multiple of 90 parses to the angle normalized by `(n + 360) % 360`, any
/// other multiple is rejected with its value, and any other text is
/// rejected as no angle at all.
pub open spec fn spec_parse_rotate_param(p: Seq<char>) -> ParseOutcome {
    if is_usize_literal(p) {
        if usize_literal_val(p) % 90 != 0 {
            ParseOutcome::BadMultiple(usize_literal_val(p))
        } else {
            ParseOutcome::Parsed(
                NamedPixelMapperType::Rotate(((usize_literal_val(p) + 360) % 360) as usize),
            )
        }
    } else {
        ParseOutcome::BadAngle
    }
}

/// The grammar of one configuration token: `Mirror:` or `Rotate:` followed
/// by their parameter, the bare word `U-mapper`, and nothing else.  A colon
/// splits the token at its first occurrence into a command and a
/// parameter.
pub open spec fn spec_parse(s: Seq<char>) -> ParseOutcome {
    if contains_colon(s) {
        let command = s.subrange(0, first_colon(s));
        let param = s.subrange(first_colon(s) + 1, s.len() as int);
        if command == "Mirror"@ {
            spec_parse_mirror_param(param)
        } else if command == "Rotate"@ {
            spec_parse_rotate_param(param)
        } else {
            ParseOutcome::BadToken(command)
        }
    } else if s == "U-mapper"@ {
        ParseOutcome::Parsed(NamedPixelMapperType::UMapper)
    } else {
        ParseOutcome::BadToken(s)
    }
}

/// Whether the parser's result is the one the grammar assigns to the
/// token: the same descriptor on success, and on failure the matching
/// error carrying the same text or value.
pub open spec fn parse_result_matches(
    s: Seq<char>,
    r: Result<NamedPixelMapperType, MapperParseError>,
) -> bool {
    match (r, spec_parse(s)) {
        (Ok(d), ParseOutcome::Parsed(e)) => d == e,
        (Err(MapperParseError::InvalidMirrorParam(p)), ParseOutcome::BadMirrorParam(q)) => p@ == q,
        (Err(MapperParseError::InvalidAngle), ParseOutcome::BadAngle) => true,
        (Err(MapperParseError::NotMultipleOf90(a)), ParseOutcome::BadMultiple(b)) => a as int == b,
        (Err(MapperParseError::InvalidMapping(t)), ParseOutcome::BadToken(u)) => t@ == u,
        _ => false,
    }
}

impl NamedPixelMapperType {
    /// The descriptors the strategies are defined for: a rotation angle is
    /// one of the four the parser can produce.
    pub open spec fn wf(&self) -> bool {
        match *self {
            NamedPixelMapperType::Rotate(angle) => valid_angle(angle as int),
            _ => true,
        }
    }

    /// Parses one configuration token into a descriptor, rejecting any
    /// token outside the grammar with an error naming the offending text.
    pub fn from_str(s: &str) -> (r: Result<Self, MapperParseError>)
        ensures
            parse_result_matches(s@, r),
            r matches Ok(d) ==> d.wf(),
    {
        proof {
            reveal_strlit("H");
            reveal_strlit("h");
            reveal_strlit("V");
            reveal_strlit("v");
        }
        let n = s.unicode_len();
        let cp = find_colon(s);
        if cp < n {
            let ghost param = s@.subrange(cp + 1, n as int);
            if prefix_matches(s, cp, "Mirror") {
                if n - cp == 2 {
                    let c = s.get_char(cp + 1);
                    proof {
                        assert(param =~= seq![s@[cp + 1]]);
                    }
                    if c == 'H' {
                        proof {
                            assert(param =~= "H"@);
                        }
                        Ok(NamedPixelMapperType::Mirror(true))
                    } else if c == 'h' {
                        proof {
                            assert(param =~= "h"@);
                        }
                        Ok(NamedPixelMapperType::Mirror(true))
                    } else if c == 'V' {
                        proof {
                            assert(param =~= "V"@);
                        }
                        Ok(NamedPixelMapperType::Mirror(false))
                    } else if c == 'v' {
                        proof {
                            assert(param =~= "v"@);
                        }
                        Ok(NamedPixelMapperType::Mirror(false))
                    } else {
                        let text = s.substring_char(cp + 1, n);
                        Err(MapperParseError::InvalidMirrorParam(text.to_owned()))
                    }
                } else {
                    let text = s.substring_char(cp + 1, n);
                    Err(MapperParseError::InvalidMirrorParam(text.to_owned()))
                }
            } else if prefix_matches(s, cp, "Rotate") {
                let text = s.substring_char(cp + 1, n);
                match parse_usize(text) {
                    Some(angle) => {
                        if angle % 90 != 0 {
                            Err(MapperParseError::NotMultipleOf90(angle))
                        } else {
                            proof {
                                lemma_mod_add_multiples_vanish(angle as int, 360);
                            }
                            Ok(NamedPixelMapperType::Rotate(angle % 360))
                        }
                    },
                    None => Err(MapperParseError::InvalidAngle),
                }
            } else {
                let command = s.substring_char(0, cp);
                Err(MapperParseError::InvalidMapping(command.to_owned()))
            }
        } else if prefix_matches(s, n, "U-mapper") {
            proof {
                assert(s@.subrange(0, n as int) =~= s@);
            }
            Ok(NamedPixelMapperType::UMapper)
        } else {
            proof {
                assert(s@.subrange(0, n as int) =~= s@);
            }
            Err(MapperParseError::InvalidMapping(s.to_owned()))
        }
    }

    /// Instantiates the strategy this descriptor names, bound to the
    /// physical chain length and parallel-chain count.  The mirror and
    /// rotate strategies ignore the geometry; the U-fold validates it and
    /// rejects a chain that cannot fold.
    pub fn create(self, chain: usize, parallel: usize) -> (r: Result<
        NamedPixelMapper,
        UFoldConfigError,
    >)
        requires
            self.wf(),
            parallel >= 1,
        ensures
            match self {
                NamedPixelMapperType::Mirror(horizontal) => r == Ok::<_, UFoldConfigError>(
                    NamedPixelMapper::Mirror(MirrorPixelMapper { horizontal }),
                ),
                NamedPixelMapperType::Rotate(angle) => r == Ok::<_, UFoldConfigError>(
                    NamedPixelMapper::Rotate(RotatePixelMapper { angle }),
                ),
                NamedPixelMapperType::UMapper => match r {
                    Ok(m) => chain >= 2 && chain % 2 == 0 && m == NamedPixelMapper::UArrange(
                        (UArrangeMapper { parallel }),
                    ),
                    Err(e) => (e is ChainTooShort && chain < 2) || (e is ChainNotEven && chain >= 2
                        && chain % 2 != 0),
                },
            },
            r matches Ok(m) ==> m.wf(),
    {
        match self {
            NamedPixelMapperType::Mirror(horizontal) => Ok(
                NamedPixelMapper::Mirror(MirrorPixelMapper { horizontal }),
            ),
            NamedPixelMapperType::Rotate(angle) => Ok(
                NamedPixelMapper::Rotate(RotatePixelMapper { angle }),
            ),
            NamedPixelMapperType::UMapper => match UArrangeMapper::new_with_parameters(
                chain,
                parallel,
            ) {
                Ok(u) => Ok(NamedPixelMapper::UArrange(u)),
                Err(e) => Err(e),
            },
        }
    }
}

impl MapperParseError {
    /// A descriptive message naming the offending token and the expected
    /// grammar.
    pub fn message(&self) -> (r: String)
        ensures
            match self {
                MapperParseError::InvalidMirrorParam(p) => r@ == "'"@ + p@
                    + "' is not valid. Mirror parameter should be either 'V' or 'H'"@,
                MapperParseError::InvalidAngle => r@ == "Rotation angle is missing or invalid"@,
                MapperParseError::NotMultipleOf90(a) => r@ == "'"@ + spec_decimal(*a as int)
                    + "' is not valid. Rotation needs to be a multiple of 90 degrees"@,
                MapperParseError::InvalidMapping(t) => r@ == "'"@ + t@
                    + "' is not a valid Pixel mapping."@,
            },
    {
        match self {
            MapperParseError::InvalidMirrorParam(p) => String::from_str("'").concat(
                p.as_str(),
            ).concat("' is not valid. Mirror parameter should be either 'V' or 'H'"),
            MapperParseError::InvalidAngle => String::from_str(
                "Rotation angle is missing or invalid",
            ),
            MapperParseError::NotMultipleOf90(a) => String::from_str("'").concat(
                decimal_string(*a).as_str(),
            ).concat("' is not valid. Rotation needs to be a multiple of 90 degrees"),
            MapperParseError::InvalidMapping(t) => String::from_str("'").concat(t.as_str()).concat(
                "' is not a valid Pixel mapping.",
            ),
        }
    }
}

} // verus!
