//! Which column types the `infer` command asks to re-read from text. The
//! re-reading itself is the format layer's work, outside.
use vstd::prelude::*;

verus! {

/// The set of types to infer.
#[derive(Debug, Clone, Copy, PartialEq, Eq, Structural)]
pub struct TypeInferer {
    pub ints: bool,
    pub floats: bool,
    pub booleans: bool,
    pub dates: bool,
    pub datetimes: bool,
}

/// Nothing inferred.
pub open spec fn inferer_none() -> TypeInferer {
    TypeInferer { ints: false, floats: false, booleans: false, dates: false, datetimes: false }
}

impl TypeInferer {
    /// Nothing inferred.
    pub fn new() -> (r: TypeInferer)
        ensures
            r == (TypeInferer {
                ints: false,
                floats: false,
                booleans: false,
                dates: false,
                datetimes: false,
            }),
    {
        TypeInferer { ints: false, floats: false, booleans: false, dates: false, datetimes: false }
    }

    /// Everything inferred.
    pub fn all() -> (r: TypeInferer)
        ensures
            r == (TypeInferer {
                ints: true,
                floats: true,
                booleans: true,
                dates: true,
                datetimes: true,
            }),
    {
        TypeInferer { ints: true, floats: true, booleans: true, dates: true, datetimes: true }
    }
}

impl Default for TypeInferer {
    /// Nothing inferred.
    fn default() -> (r: Self)
        ensures
            r == (TypeInferer {
                ints: false,
                floats: false,
                booleans: false,
                dates: false,
                datetimes: false,
            }),
    {
        TypeInferer::new()
    }
}

} // verus!
