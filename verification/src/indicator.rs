//! Which price field of a bar an indicator reads.

use vstd::prelude::*;

use crate::text::str_eq;

verus! {

/// A single field of an OHLCV bar, or a price derived from several.
#[derive(Debug, Clone, Copy, PartialEq, Eq, Structural)]
pub enum PriceColumn {
    Open,
    High,
    Low,
    Close,
    Volume,
    /// `(High + Low + Close) / 3`
    TypicalPrice,
    /// `(High + Low) / 2`
    HL2,
}

/// The canonical lower-case name of a column.
pub open spec fn column_name(c: PriceColumn) -> Seq<char> {
    match c {
        PriceColumn::Open => "open"@,
        PriceColumn::High => "high"@,
        PriceColumn::Low => "low"@,
        PriceColumn::Close => "close"@,
        PriceColumn::Volume => "volume"@,
        PriceColumn::TypicalPrice => "typical_price"@,
        PriceColumn::HL2 => "hl2"@,
    }
}

/// The column a `column` parameter selects: `open`, `high`, `low` and (where
/// the indicator accepts it) `volume` by name; anything else means close.
pub open spec fn column_for_param(name: Seq<char>, with_volume: bool) -> PriceColumn {
    if name == "open"@ {
        PriceColumn::Open
    } else if name == "high"@ {
        PriceColumn::High
    } else if name == "low"@ {
        PriceColumn::Low
    } else if with_volume && name == "volume"@ {
        PriceColumn::Volume
    } else {
        PriceColumn::Close
    }
}

impl Default for PriceColumn {
    /// Indicators read the close unless told otherwise.
    fn default() -> (r: Self)
        ensures
            r == PriceColumn::Close,
    {
        PriceColumn::Close
    }
}

impl PriceColumn {
    /// The canonical lower-case name of the column, e.g. `"typical_price"`.
    pub fn as_str(self) -> (r: &'static str)
        ensures
            r@ == column_name(self),
    {
        match self {
            PriceColumn::Open => "open",
            PriceColumn::High => "high",
            PriceColumn::Low => "low",
            PriceColumn::Close => "close",
            PriceColumn::Volume => "volume",
            PriceColumn::TypicalPrice => "typical_price",
            PriceColumn::HL2 => "hl2",
        }
    }

    /// The column named by a `column` parameter value. `volume` is only
    /// recognised when `with_volume` holds; unknown names select the close.
    pub fn from_param(name: &str, with_volume: bool) -> (r: PriceColumn)
        ensures
            r == column_for_param(name@, with_volume),
    {
        if str_eq(name, "open") {
            PriceColumn::Open
        } else if str_eq(name, "high") {
            PriceColumn::High
        } else if str_eq(name, "low") {
            PriceColumn::Low
        } else if with_volume && str_eq(name, "volume") {
            PriceColumn::Volume
        } else {
            PriceColumn::Close
        }
    }
}

/// Naming a column by its canonical name selects it again, for the plain
/// OHLCV fields that a `column` parameter accepts.
pub proof fn lemma_column_name_round_trip(c: PriceColumn)
    requires
        c == PriceColumn::Open || c == PriceColumn::High || c == PriceColumn::Low
            || c == PriceColumn::Close || c == PriceColumn::Volume,
    ensures
        column_for_param(column_name(c), true) == c,
{
    reveal_strlit("open");
    reveal_strlit("high");
    reveal_strlit("low");
    reveal_strlit("close");
    reveal_strlit("volume");
    if c == PriceColumn::Close {
        assert("close"@ != "open"@) by { assert("close"@[0] != "open"@[0]); }
        assert("close"@ != "high"@) by { assert("close"@[0] != "high"@[0]); }
        assert("close"@ != "low"@) by { assert("close"@[0] != "low"@[0]); }
        assert("close"@ != "volume"@) by { assert("close"@[0] != "volume"@[0]); }
    } else if c == PriceColumn::Volume {
        assert("volume"@ != "open"@) by { assert("volume"@[0] != "open"@[0]); }
        assert("volume"@ != "high"@) by { assert("volume"@[0] != "high"@[0]); }
        assert("volume"@ != "low"@) by { assert("volume"@[0] != "low"@[0]); }
    } else if c == PriceColumn::High {
        assert("high"@ != "open"@) by { assert("high"@[0] != "open"@[0]); }
    } else if c == PriceColumn::Low {
        assert("low"@ != "open"@) by { assert("low"@[0] != "open"@[0]); }
        assert("low"@ != "high"@) by { assert("low"@[0] != "high"@[0]); }
    }
}

} // verus!
