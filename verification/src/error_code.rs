//! The `#[error_code]` attribute: the error code of each variant of an
//! error enum, counting up from 0 or from the last explicit discriminant.
use vstd::prelude::*;
use crate::text::chars_of;

verus! {

/// A variant's explicit discriminant, as written.
pub enum Discriminant {
    /// An integer literal, by the decimal digits of its value.
    IntLiteral(String),
    /// Any other expression.
    Other,
}

/// One variant of the enum.
pub struct VariantInfo {
    pub name: String,
    pub discriminant: Option<Discriminant>,
}

/// Why the attribute refuses its item.
#[derive(Debug, Clone, Copy, PartialEq, Eq, Structural)]
pub enum ErrorCodeError {
    /// The item is not an enum.
    NotAnEnum,
    /// A discriminant literal does not fit in a `u32`.
    InvalidU32,
    /// A discriminant is not an integer literal.
    NotIntegerLiteral,
    /// A variant's code is `u32::MAX`, so the next code overflows.
    Overflow,
}

impl ErrorCodeError {
    pub open spec fn message_view(self) -> Seq<char> {
        match self {
            ErrorCodeError::NotAnEnum => "#[error_code] can only be used on enums"@,
            ErrorCodeError::InvalidU32 => "#[error_code] discriminant must be a valid u32"@,
            ErrorCodeError::NotIntegerLiteral => "#[error_code] discriminant must be an integer literal"@,
            ErrorCodeError::Overflow => "attempt to add with overflow"@,
        }
    }

    /// The message the macro fails with.
    pub fn message(self) -> (s: &'static str)
        ensures
            s@ == self.message_view(),
    {
        match self {
            ErrorCodeError::NotAnEnum => "#[error_code] can only be used on enums",
            ErrorCodeError::InvalidU32 => "#[error_code] discriminant must be a valid u32",
            ErrorCodeError::NotIntegerLiteral => "#[error_code] discriminant must be an integer literal",
            ErrorCodeError::Overflow => "attempt to add with overflow",
        }
    }
}

pub open spec fn is_digit(c: char) -> bool {
    48 <= (c as u32) <= 57
}

/// The number the decimal digits `d` write.
pub open spec fn digits_value(d: Seq<char>) -> nat
    decreases d.len(),
{
    if d.len() == 0 {
        0
    } else {
        digits_value(d.drop_last()) * 10 + ((d.last() as u32) - 48) as nat
    }
}

pub open spec fn all_digits(d: Seq<char>) -> bool {
    forall|i: int| 0 <= i < d.len() ==> is_digit(#[trigger] d[i])
}

/// `s` without a leading `+`.
pub open spec fn unsigned_part(s: Seq<char>) -> Seq<char> {
    if s.len() > 0 && s[0] == '+' {
        s.drop_first()
    } else {
        s
    }
}

/// `str::parse::<u32>`: an optional `+`, then at least one decimal digit,
/// and a value that fits.
pub open spec fn parse_u32_spec(s: Seq<char>) -> Option<u32> {
    let d = unsigned_part(s);
    if d.len() > 0 && all_digits(d) && digits_value(d) <= u32::MAX {
        Some(digits_value(d) as u32)
    } else {
        None
    }
}

proof fn lemma_digits_value_grows(d: Seq<char>, k: int)
    requires
        0 <= k <= d.len(),
        all_digits(d),
    ensures
        digits_value(d.take(k)) <= digits_value(d),
    decreases d.len() - k,
{
    if k < d.len() {
        lemma_digits_value_grows(d, k + 1);
        assert(d.take(k + 1).drop_last() =~= d.take(k));
    } else {
        assert(d.take(k) =~= d);
    }
}

pub fn parse_u32(s: &str) -> (r: Option<u32>)
    ensures
        r == parse_u32_spec(s@),
{
    let v = chars_of(s);
    let start: usize = if v.len() > 0 && v[0] == '+' {
        1
    } else {
        0
    };
    let ghost d = unsigned_part(s@);
    assert(d =~= s@.skip(start as int));
    if start == v.len() {
        return None;
    }
    let mut value: u64 = 0;
    let mut i = start;
    while i < v.len()
        invariant
            v@ == s@,
            start <= i <= v@.len(),
            d == s@.skip(start as int),
            d == unsigned_part(s@),
            forall|j: int| 0 <= j < i - start ==> is_digit(#[trigger] d[j]),
            value == digits_value(d.take(i - start)),
            value <= u32::MAX,
        decreases v@.len() - i,
    {
        let c = v[i];
        assert(d[i - start] == c);
        let u = c as u32;
        if u < 48 || u > 57 {
            assert(!is_digit(d[i - start]));
            assert(!all_digits(d));
            return None;
        }
        assert(d.take(i - start + 1).drop_last() =~= d.take(i - start));
        assert(d.take(i - start + 1).last() == c);
        assert(digits_value(d.take(i - start + 1)) == digits_value(d.take(i - start)) * 10 + (u
            - 48) as nat);
        value = value * 10 + (u - 48) as u64;
        i = i + 1;
        if value > 0xffff_ffff {
            proof {
                if all_digits(d) {
                    lemma_digits_value_grows(d, i - start);
                }
            }
            assert(parse_u32_spec(s@) is None);
            return None;
        }
    }
    assert(d.take(d.len() as int) =~= d);
    Some(value as u32)
}

pub open spec fn variant_disc_view(d: Option<Discriminant>) -> Option<Option<Seq<char>>> {
    match d {
        None => None,
        Some(Discriminant::IntLiteral(s)) => Some(Some(s@)),
        Some(Discriminant::Other) => Some(None),
    }
}

/// The codes of the variants `vs`, the first without an explicit
/// discriminant getting `next`: a variant with one gets its value, every
/// other the previous code plus one. The first variant that fails decides
/// the error.
pub open spec fn codes_from(vs: Seq<Option<Option<Seq<char>>>>, next: int) -> Result<Seq<u32>, ErrorCodeError>
    decreases vs.len(),
{
    if vs.len() == 0 {
        Ok(seq![])
    } else {
        match variant_value(vs[0], next) {
            Err(e) => Err(e),
            Ok(v) => if v >= u32::MAX {
                Err(ErrorCodeError::Overflow)
            } else {
                match codes_from(vs.drop_first(), v + 1) {
                    Ok(rest) => Ok(seq![v as u32] + rest),
                    Err(e) => Err(e),
                }
            },
        }
    }
}

/// The code of one variant: its explicit discriminant, else `next`.
pub open spec fn variant_value(d: Option<Option<Seq<char>>>, next: int) -> Result<int, ErrorCodeError> {
    match d {
        None => Ok(next),
        Some(Some(digits)) => match parse_u32_spec(digits) {
            Some(v) => Ok(v as int),
            None => Err(ErrorCodeError::InvalidU32),
        },
        Some(None) => Err(ErrorCodeError::NotIntegerLiteral),
    }
}

pub open spec fn variants_view(vs: Seq<VariantInfo>) -> Seq<Option<Option<Seq<char>>>> {
    vs.map_values(|v: VariantInfo| variant_disc_view(v.discriminant))
}

/// The error code of every variant, in order; `None` stands for an item that
/// is not an enum.
pub fn error_codes(variants: Option<&Vec<VariantInfo>>) -> (r: Result<Vec<u32>, ErrorCodeError>)
    ensures
        match variants {
            None => r == Err::<Vec<u32>, ErrorCodeError>(ErrorCodeError::NotAnEnum),
            Some(vs) => match codes_from(variants_view(vs@), 0) {
                Ok(codes) => r matches Ok(out) && out@ == codes,
                Err(e) => r == Err::<Vec<u32>, ErrorCodeError>(e),
            },
        },
{
    let vs = match variants {
        Some(vs) => vs,
        None => return Err(ErrorCodeError::NotAnEnum),
    };
    let ghost all = variants_view(vs@);
    let mut out: Vec<u32> = Vec::new();
    let mut next: u32 = 0;
    let mut i: usize = 0;
    proof {
        assert(all.skip(0) =~= all);
        match codes_from(all, 0) {
            Ok(rest) => {
                assert(out@ + rest =~= rest);
            },
            Err(e) => {},
        }
    }
    while i < vs.len()
        invariant
            variants == Some(vs),
            all == variants_view(vs@),
            i <= vs@.len(),
            codes_from(all, 0) == match codes_from(all.skip(i as int), next as int) {
                Ok(rest) => Ok(out@ + rest),
                Err(e) => Err(e),
            },
        decreases vs@.len() - i,
    {
        assert(all.skip(i as int).drop_first() =~= all.skip(i + 1));
        assert(all.skip(i as int)[0] == variant_disc_view(vs@[i as int].discriminant));
        let value: u32 = match &vs[i].discriminant {
            None => next,
            Some(Discriminant::IntLiteral(digits)) => match parse_u32(digits.as_str()) {
                Some(v) => v,
                None => {
                    assert(codes_from(all.skip(i as int), next as int) == Err::<Seq<u32>, ErrorCodeError>(ErrorCodeError::InvalidU32));
                    return Err(ErrorCodeError::InvalidU32);
                },
            },
            Some(Discriminant::Other) => {
                assert(codes_from(all.skip(i as int), next as int) == Err::<Seq<u32>, ErrorCodeError>(ErrorCodeError::NotIntegerLiteral));
                return Err(ErrorCodeError::NotIntegerLiteral);
            },
        };
        if value == 0xffff_ffff {
            assert(codes_from(all.skip(i as int), next as int) == Err::<Seq<u32>, ErrorCodeError>(ErrorCodeError::Overflow));
            return Err(ErrorCodeError::Overflow);
        }
        let ghost before = out@;
        out.push(value);
        assert(out@ =~= before + seq![value]);
        proof {
            match codes_from(all.skip(i + 1), value + 1) {
                Ok(rest) => {
                    assert(before + (seq![value] + rest) =~= out@ + rest);
                },
                Err(e) => {},
            }
        }
        next = value + 1;
        i = i + 1;
    }
    assert(all.skip(vs@.len() as int) =~= Seq::<Option<Option<Seq<char>>>>::empty());
    assert(out@ + Seq::<u32>::empty() =~= out@);
    Ok(out)
}

/// Without explicit discriminants the codes are 0, 1, 2, ... in variant
/// order.
pub proof fn codes_count_from_zero(vs: Seq<Option<Option<Seq<char>>>>, next: int)
    requires
        forall|i: int| 0 <= i < vs.len() ==> vs[i] is None,
        0 <= next,
        next + vs.len() < u32::MAX,
    ensures
        codes_from(vs, next) matches Ok(codes) && codes.len() == vs.len() && forall|i: int|
            0 <= i < codes.len() ==> codes[i] == next + i,
    decreases vs.len(),
{
    if vs.len() > 0 {
        codes_count_from_zero(vs.drop_first(), next + 1);
        let rest = codes_from(vs.drop_first(), next + 1).unwrap();
        let codes = codes_from(vs, next).unwrap();
        assert(codes == seq![next as u32] + rest);
        assert forall|i: int| 0 <= i < codes.len() implies codes[i] == next + i by {
            if i > 0 {
                assert(codes[i] == rest[i - 1]);
            }
        }
    }
}

/// A variant without an explicit discriminant gets the code after the
/// previous variant's (the first one gets `next`, 0 for the whole enum).
pub proof fn codes_count_up_without_discriminant(vs: Seq<Option<Option<Seq<char>>>>, next: int)
    requires
        0 <= next,
        codes_from(vs, next) is Ok,
    ensures
        ({
            let codes = codes_from(vs, next).unwrap();
            &&& codes.len() == vs.len()
            &&& vs.len() > 0 && vs[0] is None ==> codes[0] == next
            &&& forall|i: int|
                0 <= i < vs.len() - 1 && vs[i + 1] is None ==> #[trigger] codes[i + 1] == codes[i] + 1
        }),
    decreases vs.len(),
{
    if vs.len() > 0 {
        let codes = codes_from(vs, next).unwrap();
        let v = variant_value(vs[0], next).unwrap();
        codes_count_up_without_discriminant(vs.drop_first(), v + 1);
        let rest = codes_from(vs.drop_first(), v + 1).unwrap();
        assert(codes == seq![v as u32] + rest);
        assert forall|i: int| 0 <= i < vs.len() - 1 && vs[i + 1] is None implies #[trigger] codes[i + 1] == codes[i] + 1 by {
            assert(vs.drop_first()[i] == vs[i + 1]);
            if i > 0 {
                assert(vs.drop_first()[i - 1 + 1] == vs[i + 1]);
                assert(codes[i + 1] == rest[i]);
                assert(codes[i] == rest[i - 1]);
            } else {
                assert(codes[1] == rest[0]);
                assert(codes[0] == v);
                assert(rest[0] == v + 1);
            }
        }
    }
}

/// A variant with an explicit integer discriminant gets exactly that value
/// as its code, wherever it stands.
pub proof fn explicit_discriminant_is_the_code(vs: Seq<Option<Option<Seq<char>>>>, next: int)
    requires
        codes_from(vs, next) is Ok,
    ensures
        ({
            let codes = codes_from(vs, next).unwrap();
            &&& codes.len() == vs.len()
            &&& forall|i: int|
                0 <= i < vs.len() && vs[i] is Some && vs[i]->0 is Some && parse_u32_spec(
                    vs[i]->0->0,
                ) is Some ==> #[trigger] codes[i] == parse_u32_spec(vs[i]->0->0)->0
        }),
    decreases vs.len(),
{
    if vs.len() > 0 {
        let codes = codes_from(vs, next).unwrap();
        let v0 = variant_value(vs[0], next).unwrap();
        explicit_discriminant_is_the_code(vs.drop_first(), v0 + 1);
        let rest = codes_from(vs.drop_first(), v0 + 1).unwrap();
        assert(codes == seq![v0 as u32] + rest);
        assert forall|i: int|
            0 <= i < vs.len() && vs[i] is Some && vs[i]->0 is Some && parse_u32_spec(
                vs[i]->0->0,
            ) is Some implies #[trigger] codes[i] == parse_u32_spec(vs[i]->0->0)->0 by {
            if i > 0 {
                assert(vs.drop_first()[i - 1] == vs[i]);
                assert(codes[i] == rest[i - 1]);
            }
        }
    }
}

} // verus!
