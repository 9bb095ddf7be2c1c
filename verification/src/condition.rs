//! Conversion rules: which target format a rule yields for a source format.

use vstd::prelude::*;

use crate::format::{Format, FormatErr, FormatSet};
use crate::text;

verus! {

/// A rule could not be read.
#[derive(Copy, Clone, Debug, PartialEq, Eq, Structural)]
pub enum ConditionErr {
    Format(FormatErr),
}

impl ConditionErr {
    /// The message shown for this error.
    pub fn message(&self) -> (r: &'static str)
        ensures
            r@ == "unsupported format"@,
    {
        match self {
            ConditionErr::Format(e) => e.message(),
        }
    }

    /// The rule error that a format error amounts to.
    pub fn from(err: FormatErr) -> (r: ConditionErr)
        ensures
            r == ConditionErr::Format(err),
    {
        ConditionErr::Format(err)
    }
}

/// The left side of a rule: which source formats it applies to.
#[derive(Copy, Clone, Debug, PartialEq, Eq, Structural)]
pub enum FromCondition {
    Lossless,
    Lossy,
    Exact(Format),
}

impl FromCondition {
    pub open spec fn spec_matches(self, format: Format) -> bool {
        match self {
            FromCondition::Lossless => format.spec_is_lossless(),
            FromCondition::Lossy => !format.spec_is_lossless(),
            FromCondition::Exact(f) => f == format,
        }
    }

    /// Whether the rule applies to a source of format `format`.
    pub fn matches(self, format: Format) -> (r: bool)
        ensures
            r == self.spec_matches(format),
    {
        match self {
            FromCondition::Lossless => format.is_lossless(),
            FromCondition::Lossy => !format.is_lossless(),
            FromCondition::Exact(f) => f == format,
        }
    }

    pub open spec fn spec_parse(s: Seq<char>) -> Result<FromCondition, ConditionErr> {
        if s == "lossless"@ {
            Ok(FromCondition::Lossless)
        } else if s == "lossy"@ {
            Ok(FromCondition::Lossy)
        } else {
            match Format::spec_from_ext(s) {
                Some(f) => Ok(FromCondition::Exact(f)),
                None => Err(ConditionErr::Format(FormatErr)),
            }
        }
    }

    /// Reads `lossless`, `lossy` or a format name.
    pub fn parse(s: &str) -> (r: Result<FromCondition, ConditionErr>)
        ensures
            r == FromCondition::spec_parse(s@),
    {
        if text::eq(s, "lossless") {
            Ok(FromCondition::Lossless)
        } else if text::eq(s, "lossy") {
            Ok(FromCondition::Lossy)
        } else {
            match Format::parse(s) {
                Ok(f) => Ok(FromCondition::Exact(f)),
                Err(e) => Err(ConditionErr::from(e)),
            }
        }
    }

    pub open spec fn spec_name(self) -> Seq<char> {
        match self {
            FromCondition::Lossless => "lossless"@,
            FromCondition::Lossy => "lossy"@,
            FromCondition::Exact(f) => f.spec_ext(),
        }
    }

    /// The text that `parse` reads back.
    pub fn name(&self) -> (r: String)
        ensures
            r@ == self.spec_name(),
    {
        match self {
            FromCondition::Lossless => text::string(&text::chars("lossless")),
            FromCondition::Lossy => text::string(&text::chars("lossy")),
            FromCondition::Exact(f) => f.name(),
        }
    }
}

/// The right side of a rule: the format to produce.
#[derive(Copy, Clone, Debug, PartialEq, Eq, Structural)]
pub enum ToCondition {
    Exact(Format),
    Same,
}

impl ToCondition {
    pub open spec fn spec_to_format(self, format: Format) -> Format {
        match self {
            ToCondition::Exact(f) => f,
            ToCondition::Same => format,
        }
    }

    /// The format to produce from a source of format `format`.
    pub fn to_format(self, format: Format) -> (r: Format)
        ensures
            r == self.spec_to_format(format),
    {
        match self {
            ToCondition::Exact(f) => f,
            ToCondition::Same => format,
        }
    }

    pub open spec fn spec_parse(s: Seq<char>) -> Result<ToCondition, ConditionErr> {
        if s == "same"@ {
            Ok(ToCondition::Same)
        } else {
            match Format::spec_from_ext(s) {
                Some(f) => Ok(ToCondition::Exact(f)),
                None => Err(ConditionErr::Format(FormatErr)),
            }
        }
    }

    /// Reads `same` or a format name.
    pub fn parse(s: &str) -> (r: Result<ToCondition, ConditionErr>)
        ensures
            r == ToCondition::spec_parse(s@),
    {
        if text::eq(s, "same") {
            Ok(ToCondition::Same)
        } else {
            match Format::parse(s) {
                Ok(f) => Ok(ToCondition::Exact(f)),
                Err(e) => Err(ConditionErr::from(e)),
            }
        }
    }
}

/// One conversion rule.
#[derive(Copy, Clone, Debug, PartialEq, Eq, Structural)]
pub enum Condition {
    Same,
    FromTo { from: FromCondition, to: ToCondition },
    To { to: ToCondition },
}

impl Condition {
    /// The target that the rule yields for a source of format `format`.
    pub open spec fn spec_to_format(self, format: Format) -> Option<Format> {
        match self {
            Condition::Same => Some(format),
            Condition::To { to } => Some(to.spec_to_format(format)),
            Condition::FromTo { from, to } => if from.spec_matches(format) {
                Some(to.spec_to_format(format))
            } else {
                None
            },
        }
    }

    /// The target of the rule for a source of format `format`, if the
    /// rule applies to it.
    pub fn to_format(self, format: Format) -> (r: Option<Format>)
        ensures
            r == self.spec_to_format(format),
    {
        match self {
            Condition::Same => Some(format),
            Condition::To { to } => Some(to.to_format(format)),
            Condition::FromTo { from, to } => {
                if from.matches(format) {
                    Some(to.to_format(format))
                } else {
                    None
                }
            },
        }
    }

    /// What a rule text denotes: `same`; a target alone; or source and
    /// target on either side of the first `=`.
    pub open spec fn spec_parse(s: Seq<char>) -> Result<Condition, ConditionErr> {
        if s == "same"@ {
            Ok(Condition::Same)
        } else if text::first_index(s, '=') < 0 {
            match ToCondition::spec_parse(s) {
                Ok(to) => Ok(Condition::To { to }),
                Err(e) => Err(e),
            }
        } else {
            let i = text::first_index(s, '=');
            match FromCondition::spec_parse(s.take(i)) {
                Err(e) => Err(e),
                Ok(from) => match ToCondition::spec_parse(s.skip(i + 1)) {
                    Err(e) => Err(e),
                    Ok(to) => Ok(Condition::FromTo { from, to }),
                },
            }
        }
    }

    /// Reads a rule.
    pub fn parse(s: &str) -> (r: Result<Condition, ConditionErr>)
        ensures
            r == Condition::spec_parse(s@),
    {
        if text::eq(s, "same") {
            return Ok(Condition::Same);
        }
        let v = text::chars(s);
        match text::find(&v, '=') {
            None => match ToCondition::parse(s) {
                Ok(to) => Ok(Condition::To { to }),
                Err(e) => Err(e),
            },
            Some(i) => {
                let left = text::string(&text::slice(&v, 0, i));
                let right = text::string(&text::slice(&v, i + 1, v.len()));
                match FromCondition::parse(left.as_str()) {
                    Err(e) => Err(e),
                    Ok(from) => match ToCondition::parse(right.as_str()) {
                        Err(e) => Err(e),
                        Ok(to) => Ok(Condition::FromTo { from, to }),
                    },
                }
            },
        }
    }
}

/// Whether some rule of `rules` yields `target` for a source of format `from`.
pub open spec fn yields(rules: Seq<Condition>, from: Format, target: Format) -> bool {
    exists|i: int| 0 <= i < rules.len() && (#[trigger] rules[i]).spec_to_format(from) == Some(target)
}

/// The targets that the rules yield for a source of format `from`.
pub open spec fn target_set(rules: Seq<Condition>, from: Format) -> Set<Format> {
    Set::new(|t: Format| yields(rules, from, t))
}

/// Collects the targets of every rule that applies to `from`. A target that
/// several rules yield is planned once.
pub fn targets(rules: &Vec<Condition>, from: Format) -> (r: FormatSet)
    ensures
        r@ == target_set(rules@, from),
{
    let mut out = FormatSet::new();
    let mut i: usize = 0;
    while i < rules.len()
        invariant
            i <= rules.len(),
            out@ == target_set(rules@.take(i as int), from),
        decreases rules.len() - i,
    {
        let ghost before = out@;
        match rules[i].to_format(from) {
            Some(t) => {
                out.insert(t);
            },
            None => {},
        }
        proof {
            let a = rules@.take(i as int);
            let b = rules@.take(i + 1);
            assert forall|t: Format| out@.contains(t) == yields(b, from, t) by {
                if yields(a, from, t) {
                    let k = choose|k: int| 0 <= k < a.len() && (#[trigger] a[k]).spec_to_format(from) == Some(t);
                    assert(b[k] == a[k]);
                }
                if rules@[i as int].spec_to_format(from) == Some(t) {
                    assert(b[i as int] == rules@[i as int]);
                }
                if yields(b, from, t) {
                    let k = choose|k: int| 0 <= k < b.len() && (#[trigger] b[k]).spec_to_format(from) == Some(t);
                    if k < i {
                        assert(a[k] == b[k]);
                    }
                }
            }
            assert(out@ =~= target_set(b, from));
        }
        i += 1;
    }
    assert(rules@.take(i as int) == rules@);
    out
}

/// The order of the rules does not matter: two rule lists with the same
/// rules, in any order and with any repetition, yield the same targets.
pub proof fn lemma_targets_order_independent(a: Seq<Condition>, b: Seq<Condition>, from: Format)
    requires
        forall|c: Condition| a.contains(c) <==> b.contains(c),
    ensures
        target_set(a, from) == target_set(b, from),
        crate::format::ordered(target_set(a, from)) == crate::format::ordered(target_set(b, from)),
{
    assert forall|t: Format| yields(a, from, t) == yields(b, from, t) by {
        if yields(a, from, t) {
            let k = choose|k: int| 0 <= k < a.len() && (#[trigger] a[k]).spec_to_format(from) == Some(t);
            assert(a.contains(a[k]));
            let j = choose|j: int| 0 <= j < b.len() && b[j] == a[k];
            assert(b[j].spec_to_format(from) == Some(t));
        }
        if yields(b, from, t) {
            let k = choose|k: int| 0 <= k < b.len() && (#[trigger] b[k]).spec_to_format(from) == Some(t);
            assert(b.contains(b[k]));
            let j = choose|j: int| 0 <= j < a.len() && a[j] == b[k];
            assert(a[j].spec_to_format(from) == Some(t));
        }
    }
    assert(target_set(a, from) =~= target_set(b, from));
}

/// A rule with the target `same` on a matching source yields the source's
/// own format.
pub proof fn lemma_same_keeps_format(from: FromCondition, format: Format)
    ensures
        Condition::Same.spec_to_format(format) == Some(format),
        (Condition::To { to: ToCondition::Same }).spec_to_format(format) == Some(format),
        from.spec_matches(format) ==> (Condition::FromTo { from, to: ToCondition::Same }).spec_to_format(format)
            == Some(format),
{
}

} // verus!
