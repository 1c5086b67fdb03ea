//! Image processing parameters carried in an image URI's query string.
//!
//! Contrast is held in thousandths, so the whole pipeline — parsing the
//! query value, range checking, and writing the value back into a query
//! string — is exact integer logic.

use vstd::prelude::*;

verus! {

/// Why a query string was rejected.
#[derive(Clone, Copy, PartialEq, Eq, Structural, Debug)]
pub enum ParamError {
    /// The URI does not parse as an absolute URL.
    InvalidUrl,
    /// The rotation value is not a small decimal number.
    InvalidRotate,
    /// The rotation value is not one of the four quarter turns.
    RotateOutOfRange,
    /// The contrast value is not a short decimal fraction.
    InvalidContrast,
    /// The contrast value lies outside minus one to one.
    ContrastOutOfRange,
    /// The brighten value is not a decimal integer.
    InvalidBrighten,
}

/// The percent-decoded query pairs of a string that parses as an
/// absolute URL, or nothing when URL parsing fails. Both depend on the
/// characters of the string alone.
pub uninterp spec fn query_pairs_of(s: Seq<char>) -> Option<Seq<(Seq<char>, Seq<char>)>>;

/// Relies on `url::Url::parse` and `Url::query_pairs`: parsing an
/// absolute URL and percent-decoding its query pairs, in order. Both are
/// functions of the string alone; a parse failure is reported as the
/// error's message text.
#[verifier::external_body]
fn url_query_pairs(s: &str) -> (r: Result<Vec<(String, String)>, String>)
    ensures
        match r {
            Ok(pairs) => query_pairs_of(s@) == Some(
                pairs@.map_values(|p: (String, String)| (p.0@, p.1@)),
            ),
            Err(_) => query_pairs_of(s@) is None,
        },
{
    match url::Url::parse(s) {
        Ok(u) => Ok(u.query_pairs().into_owned().collect()),
        Err(e) => Err(format!("Failed to parse URL: {}", e)),
    }
}

/// Value of a decimal digit, or a negative marker for other characters.
pub open spec fn spec_digit_val(c: char) -> int {
    if c == '0' {
        0
    } else if c == '1' {
        1
    } else if c == '2' {
        2
    } else if c == '3' {
        3
    } else if c == '4' {
        4
    } else if c == '5' {
        5
    } else if c == '6' {
        6
    } else if c == '7' {
        7
    } else if c == '8' {
        8
    } else if c == '9' {
        9
    } else {
        -1
    }
}

/// Every character is a decimal digit.
pub open spec fn spec_all_digits(s: Seq<char>) -> bool {
    forall|i: int| 0 <= i < s.len() ==> spec_digit_val(#[trigger] s[i]) >= 0
}

/// The number written by a digit string.
pub open spec fn spec_digits_val(s: Seq<char>) -> int
    decreases s.len(),
{
    if s.len() == 0 {
        0
    } else {
        spec_digits_val(s.drop_last()) * 10 + spec_digit_val(s.last())
    }
}

/// A digit string is worth at least any of its prefixes.
proof fn lemma_digits_prefix_le(s: Seq<char>, k: int)
    requires
        0 <= k <= s.len(),
        spec_all_digits(s),
    ensures
        spec_digits_val(s) >= 0,
        spec_digits_val(s) >= spec_digits_val(s.subrange(0, k)),
    decreases s.len(),
{
    if s.len() == 0 {
        assert(s.subrange(0, k) =~= s);
    } else {
        let dl = s.drop_last();
        assert(spec_digit_val(s[s.len() - 1]) >= 0);
        assert(spec_all_digits(dl)) by {
            assert forall|i: int| 0 <= i < dl.len() implies spec_digit_val(#[trigger] dl[i])
                >= 0 by {
                assert(dl[i] == s[i]);
            }
        }
        lemma_digits_prefix_le(dl, if k <= dl.len() {
            k
        } else {
            dl.len() as int
        });
        if k == s.len() {
            assert(s.subrange(0, k) =~= s);
        } else {
            assert(dl.subrange(0, k) =~= s.subrange(0, k));
        }
    }
}

/// The number a digit string denotes, when it is non-empty, all digits,
/// and at most `bound`.
pub open spec fn spec_parse_digits(s: Seq<char>, bound: int) -> Option<int> {
    if s.len() == 0 || !spec_all_digits(s) || spec_digits_val(s) > bound {
        None
    } else {
        Some(spec_digits_val(s))
    }
}

/// Value of one digit character.
fn char_digit(c: char) -> (r: Option<u64>)
    ensures
        match r {
            Some(v) => spec_digit_val(c) == v && v <= 9,
            None => spec_digit_val(c) < 0,
        },
{
    match c {
        '0' => Some(0),
        '1' => Some(1),
        '2' => Some(2),
        '3' => Some(3),
        '4' => Some(4),
        '5' => Some(5),
        '6' => Some(6),
        '7' => Some(7),
        '8' => Some(8),
        '9' => Some(9),
        _ => None,
    }
}

/// Parse the characters `from..to` of `s` as a bounded decimal number.
#[verifier::loop_isolation(false)]
fn parse_digits_bounded(s: &str, from: usize, to: usize, bound: u64) -> (r: Option<u64>)
    requires
        from <= to <= s@.len(),
        bound <= 10_000_000_000,
    ensures
        match r {
            Some(v) => spec_parse_digits(s@.subrange(from as int, to as int), bound as int)
                == Some(v as int),
            None => spec_parse_digits(s@.subrange(from as int, to as int), bound as int)
                is None,
        },
{
    let ghost sub = s@.subrange(from as int, to as int);
    if from == to {
        return None;
    }
    let mut acc: u64 = 0;
    let mut i: usize = from;
    while i < to
        invariant
            from <= i <= to,
            acc <= bound,
            spec_all_digits(s@.subrange(from as int, i as int)),
            acc == spec_digits_val(s@.subrange(from as int, i as int)),
        decreases to - i,
    {
        let c = s.get_char(i);
        proof {
            assert(s@.subrange(from as int, i as int + 1).last() == s@[i as int]);
            assert(s@.subrange(from as int, i as int + 1).drop_last() =~= s@.subrange(
                from as int,
                i as int,
            ));
        }
        match char_digit(c) {
            Some(d) => {
                let next = acc * 10 + d;
                if next > bound {
                    proof {
                        let k = i as int + 1 - from;
                        assert(s@.subrange(from as int, i as int + 1) =~= sub.subrange(0, k));
                        if spec_all_digits(sub) {
                            lemma_digits_prefix_le(sub, k);
                        }
                    }
                    return None;
                }
                acc = next;
                proof {
                    assert(spec_all_digits(s@.subrange(from as int, i as int + 1))) by {
                        let t = s@.subrange(from as int, i as int + 1);
                        assert forall|j: int| 0 <= j < t.len() implies spec_digit_val(
                            #[trigger] t[j],
                        ) >= 0 by {
                            if j < t.len() - 1 {
                                assert(t[j] == s@.subrange(from as int, i as int)[j]);
                            } else {
                                assert(t[j] == c);
                            }
                        }
                    }
                }
            },
            None => {
                proof {
                    assert(sub[i - from as int] == c);
                }
                return None;
            },
        }
        i += 1;
    }
    proof {
        assert(s@.subrange(from as int, to as int) =~= sub);
    }
    Some(acc)
}

/// The number an optionally `+`-signed digit string denotes.
pub open spec fn spec_parse_unsigned(s: Seq<char>, bound: int) -> Option<int> {
    if s.len() > 0 && s[0] == '+' {
        spec_parse_digits(s.drop_first(), bound)
    } else {
        spec_parse_digits(s, bound)
    }
}

/// Parse an optionally `+`-signed bounded decimal number.
pub fn parse_unsigned(s: &str, bound: u64) -> (r: Option<u64>)
    requires
        bound <= 10_000_000_000,
    ensures
        match r {
            Some(v) => spec_parse_unsigned(s@, bound as int) == Some(v as int),
            None => spec_parse_unsigned(s@, bound as int) is None,
        },
{
    let n = s.unicode_len();
    if n > 0 && s.get_char(0) == '+' {
        proof {
            assert(s@.drop_first() =~= s@.subrange(1, n as int));
        }
        parse_digits_bounded(s, 1, n, bound)
    } else {
        proof {
            assert(s@ =~= s@.subrange(0, n as int));
        }
        parse_digits_bounded(s, 0, n, bound)
    }
}

/// Index of the first dot in `s`, or a negative marker.
pub open spec fn spec_find_dot(s: Seq<char>) -> int
    decreases s.len(),
{
    if s.len() == 0 {
        -1
    } else if s[0] == '.' {
        0
    } else {
        let r = spec_find_dot(s.drop_first());
        if r < 0 {
            -1
        } else {
            r + 1
        }
    }
}

/// Largest whole part a contrast value may carry while still being read
/// as a number; anything larger is rejected as malformed.
pub const MILLI_WHOLE_BOUND: u64 = 2_000;

/// The value of a signed decimal fraction with at most three fraction
/// digits, in thousandths: sign, whole part, and an optional dot followed
/// by up to three digits. The whole part must stay small enough to read.
pub open spec fn spec_parse_milli(s: Seq<char>) -> Option<int> {
    let neg = s.len() > 0 && s[0] == '-';
    let signed = neg || (s.len() > 0 && s[0] == '+');
    let body = if signed {
        s.drop_first()
    } else {
        s
    };
    let dot = spec_find_dot(body);
    let ip = if dot >= 0 {
        body.subrange(0, dot)
    } else {
        body
    };
    let fp = if dot >= 0 {
        body.subrange(dot + 1, body.len() as int)
    } else {
        Seq::empty()
    };
    if fp.len() > 3 {
        None
    } else {
        match spec_parse_digits(ip, MILLI_WHOLE_BOUND as int) {
            Some(w) => {
                let fv = if fp.len() == 0 {
                    0
                } else {
                    match spec_parse_digits(fp, 999) {
                        Some(v) => v,
                        None => -1,
                    }
                };
                if fv < 0 {
                    None
                } else {
                    let scale: int = if fp.len() == 1 {
                        100
                    } else if fp.len() == 2 {
                        10
                    } else if fp.len() == 3 {
                        1
                    } else {
                        0
                    };
                    let total = w * 1000 + fv * scale;
                    Some(
                        if neg {
                            -total
                        } else {
                            total
                        },
                    )
                }
            },
            None => None,
        }
    }
}

/// Parse a signed decimal fraction into thousandths.
#[verifier::loop_isolation(false)]
pub fn parse_milli(s: &str) -> (r: Option<i64>)
    ensures
        match r {
            Some(v) => spec_parse_milli(s@) == Some(v as int),
            None => spec_parse_milli(s@) is None,
        },
{
    let n = s.unicode_len();
    let neg = n > 0 && s.get_char(0) == '-';
    let signed = neg || (n > 0 && s.get_char(0) == '+');
    let from: usize = if signed {
        1
    } else {
        0
    };
    let ghost body = if signed {
        s@.drop_first()
    } else {
        s@
    };
    proof {
        assert(body =~= s@.subrange(from as int, n as int));
    }
    // Find the first dot of the body.
    let mut i: usize = from;
    let mut dot: usize = n;
    let mut found = false;
    while i < n && !found
        invariant
            from <= i <= n,
            !found ==> dot == n && spec_find_dot(s@.subrange(from as int, n as int))
                == if spec_find_dot(s@.subrange(i as int, n as int)) < 0 {
                -1
            } else {
                spec_find_dot(s@.subrange(i as int, n as int)) + i - from
            },
            found ==> from <= dot < n && spec_find_dot(s@.subrange(from as int, n as int)) == dot
                - from,
        decreases n - i + (if found { 0int } else { 1int }),
    {
        proof {
            assert(s@.subrange(i as int, n as int)[0] == s@[i as int]);
            assert(s@.subrange(i as int, n as int).drop_first() =~= s@.subrange(
                i as int + 1,
                n as int,
            ));
        }
        if s.get_char(i) == '.' {
            dot = i;
            found = true;
        } else {
            i += 1;
        }
    }
    proof {
        if !found {
            assert(s@.subrange(n as int, n as int) =~= Seq::<char>::empty());
        }
    }
    let ip_end = if found {
        dot
    } else {
        n
    };
    proof {
        if found {
            assert(body.subrange(0, dot - from) =~= s@.subrange(from as int, dot as int));
            assert(body.subrange(dot - from + 1, body.len() as int) =~= s@.subrange(
                dot as int + 1,
                n as int,
            ));
        }
    }
    let w = match parse_digits_bounded(s, from, ip_end, MILLI_WHOLE_BOUND) {
        Some(w) => w,
        None => {
            return None;
        },
    };
    let fplen = if found {
        n - (dot + 1)
    } else {
        0
    };
    if fplen > 3 {
        return None;
    }
    let fv: u64 = if !found || fplen == 0 {
        0
    } else {
        match parse_digits_bounded(s, dot + 1, n, 999) {
            Some(v) => v,
            None => {
                return None;
            },
        }
    };
    let scale: u64 = if fplen == 1 {
        100
    } else if fplen == 2 {
        10
    } else if fplen == 3 {
        1
    } else {
        0
    };
    let total: u64 = w * 1000 + fv * scale;
    let signed: i64 = if neg {
        -(total as i64)
    } else {
        total as i64
    };
    Some(signed)
}

/// The value of an optionally negated decimal integer within the signed
/// 32-bit range.
pub open spec fn spec_parse_signed(s: Seq<char>) -> Option<int> {
    if s.len() > 0 && s[0] == '-' {
        match spec_parse_digits(s.drop_first(), 2147483648) {
            Some(v) => Some(-v),
            None => None,
        }
    } else if s.len() > 0 && s[0] == '+' {
        spec_parse_digits(s.drop_first(), 2147483647)
    } else {
        spec_parse_digits(s, 2147483647)
    }
}

/// Parse an optionally negated decimal integer.
pub fn parse_signed(s: &str) -> (r: Option<i64>)
    ensures
        match r {
            Some(v) => spec_parse_signed(s@) == Some(v as int) && -2147483648 <= v
                <= 2147483647,
            None => spec_parse_signed(s@) is None,
        },
{
    let n = s.unicode_len();
    if n > 0 && s.get_char(0) == '-' {
        proof {
            assert(s@.drop_first() =~= s@.subrange(1, n as int));
        }
        match parse_digits_bounded(s, 1, n, 2_147_483_648) {
            Some(v) => Some(-(v as i64)),
            None => None,
        }
    } else if n > 0 && s.get_char(0) == '+' {
        proof {
            assert(s@.drop_first() =~= s@.subrange(1, n as int));
        }
        match parse_digits_bounded(s, 1, n, 2_147_483_647) {
            Some(v) => Some(v as i64),
            None => None,
        }
    } else {
        proof {
            assert(s@ =~= s@.subrange(0, n as int));
        }
        match parse_digits_bounded(s, 0, n, 2_147_483_647) {
            Some(v) => Some(v as i64),
            None => None,
        }
    }
}

/// Parameters for processing a decoded image before display.
#[derive(Clone, Copy, PartialEq, Eq, Structural, Debug)]
pub struct ImageProcessingParameter {
    /// Quarter turns clockwise: zero to three.
    pub rotate_90_angle: u8,
    /// Contrast adjustment in thousandths, minus one to one.
    pub contrast_milli: i32,
    /// Brightness adjustment, per channel.
    pub brighten: i32,
}

/// How one query pair refines the parameters: the three known keys are
/// parsed and range checked; unknown keys are ignored.
pub open spec fn spec_apply_pair(
    p: ImageProcessingParameter,
    key: Seq<char>,
    val: Seq<char>,
) -> Result<ImageProcessingParameter, ParamError> {
    if key == "rotate-90-angle"@ {
        match spec_parse_unsigned(val, 255) {
            Some(v) => if v > 3 {
                Err(ParamError::RotateOutOfRange)
            } else {
                Ok(ImageProcessingParameter { rotate_90_angle: v as u8, ..p })
            },
            None => Err(ParamError::InvalidRotate),
        }
    } else if key == "contrast"@ {
        match spec_parse_milli(val) {
            Some(m) => if m < -1000 || m > 1000 {
                Err(ParamError::ContrastOutOfRange)
            } else {
                Ok(ImageProcessingParameter { contrast_milli: m as i32, ..p })
            },
            None => Err(ParamError::InvalidContrast),
        }
    } else if key == "brighten"@ {
        match spec_parse_signed(val) {
            Some(v) => Ok(ImageProcessingParameter { brighten: v as i32, ..p }),
            None => Err(ParamError::InvalidBrighten),
        }
    } else {
        Ok(p)
    }
}

/// The parameters after folding the first `i` query pairs, stopping at
/// the first error.
pub open spec fn spec_fold_pairs(
    p: ImageProcessingParameter,
    pairs: Seq<(Seq<char>, Seq<char>)>,
    i: int,
) -> Result<ImageProcessingParameter, ParamError>
    decreases i,
{
    if i <= 0 {
        Ok(p)
    } else {
        match spec_fold_pairs(p, pairs, i - 1) {
            Ok(q) => spec_apply_pair(q, pairs[i - 1].0, pairs[i - 1].1),
            Err(e) => Err(e),
        }
    }
}

/// Once a pair reports an error, folding further pairs keeps it.
proof fn lemma_fold_pairs_err(
    p: ImageProcessingParameter,
    pairs: Seq<(Seq<char>, Seq<char>)>,
    i: int,
    n: int,
)
    requires
        0 <= i <= n,
        spec_fold_pairs(p, pairs, i) is Err,
    ensures
        spec_fold_pairs(p, pairs, n) == spec_fold_pairs(p, pairs, i),
    decreases n - i,
{
    if n > i {
        lemma_fold_pairs_err(p, pairs, i, n - 1);
    }
}

impl ImageProcessingParameter {
    /// The neutral parameters: no rotation, no contrast or brightness
    /// change.
    pub fn default_params() -> (r: ImageProcessingParameter)
        ensures
            r == ImageProcessingParameter::spec_default(),
    {
        ImageProcessingParameter { rotate_90_angle: 0, contrast_milli: 0, brighten: 0 }
    }

    pub open spec fn spec_default() -> ImageProcessingParameter {
        ImageProcessingParameter { rotate_90_angle: 0, contrast_milli: 0, brighten: 0 }
    }

    pub fn new(rotate_90_angle: u8, contrast_milli: i32, brighten: i32) -> (r:
        ImageProcessingParameter)
        ensures
            r == (ImageProcessingParameter { rotate_90_angle, contrast_milli, brighten }),
    {
        ImageProcessingParameter { rotate_90_angle, contrast_milli, brighten }
    }

    /// Write the parameters as a URI query string.
    pub fn into_url_params(&self) -> (r: String)
        ensures
            r@ == spec_url_params(*self),
    {
        proof {
            reveal_strlit("?rotate-90-angle=");
            reveal_strlit("&contrast=");
            reveal_strlit("&brighten=");
            reveal_strlit("-");
        }
        let mut s = String::new();
        s.append("?rotate-90-angle=");
        append_dec(&mut s, self.rotate_90_angle as u64);
        s.append("&contrast=");
        append_milli(&mut s, self.contrast_milli as i64);
        s.append("&brighten=");
        let b = self.brighten as i64;
        if b < 0 {
            s.append("-");
            append_dec(&mut s, (-(b as i128)) as u64);
        } else {
            append_dec(&mut s, b as u64);
        }
        proof {
            assert(s@ =~= spec_url_params(*self));
        }
        s
    }

    /// Read the parameters from the query pairs of an image URI.
    ///
    /// A string that is not an absolute URL is rejected; otherwise the
    /// pairs are folded in order, unknown keys ignored, and the first
    /// malformed or out-of-range known value reports its error.
    pub fn parse_from_url(url: &str) -> (r: Result<ImageProcessingParameter, ParamError>)
        ensures
            match query_pairs_of(url@) {
                Some(ps) => r == spec_fold_pairs(
                    ImageProcessingParameter::spec_default(),
                    ps,
                    ps.len() as int,
                ),
                None => r == Err::<ImageProcessingParameter, ParamError>(ParamError::InvalidUrl),
            },
    {
        match url_query_pairs(url) {
            Ok(pairs) => ImageProcessingParameter::params_from_pairs(&pairs),
            Err(_) => Err(ParamError::InvalidUrl),
        }
    }

    /// Fold already-decoded query pairs into parameters.
    #[verifier::loop_isolation(false)]
    pub fn params_from_pairs(pairs: &Vec<(String, String)>) -> (r: Result<
        ImageProcessingParameter,
        ParamError,
    >)
        ensures
            r == spec_fold_pairs(
                ImageProcessingParameter::spec_default(),
                pairs@.map_values(|p: (String, String)| (p.0@, p.1@)),
                pairs@.len() as int,
            ),
    {
        let ghost ps = pairs@.map_values(|p: (String, String)| (p.0@, p.1@));
        let mut out = ImageProcessingParameter::default_params();
        let n = pairs.len();
        let mut i: usize = 0;
        while i < n
            invariant
                i <= n,
                n == pairs@.len(),
                Ok::<ImageProcessingParameter, ParamError>(out) == spec_fold_pairs(
                    ImageProcessingParameter::spec_default(),
                    ps,
                    i as int,
                ),
            decreases n - i,
        {
            let key = &pairs[i].0;
            let val = &pairs[i].1;
            proof {
                assert(ps[i as int] == (key@, val@));
                assert(val@.subrange(0, val@.len() as int) =~= val@);
            }
            if str_eq(key.as_str(), "rotate-90-angle") {
                match parse_unsigned(val.as_str(), 255) {
                    Some(v) => {
                        if v > 3 {
                            proof {
                                lemma_fold_pairs_err(
                                    ImageProcessingParameter::spec_default(),
                                    ps,
                                    i as int + 1,
                                    n as int,
                                );
                            }
                            return Err(ParamError::RotateOutOfRange);
                        }
                        out.rotate_90_angle = v as u8;
                    },
                    None => {
                        proof {
                            lemma_fold_pairs_err(
                                ImageProcessingParameter::spec_default(),
                                ps,
                                i as int + 1,
                                n as int,
                            );
                        }
                        return Err(ParamError::InvalidRotate);
                    },
                }
            } else if str_eq(key.as_str(), "contrast") {
                match parse_milli(val.as_str()) {
                    Some(m) => {
                        if m < -1000 || m > 1000 {
                            proof {
                                lemma_fold_pairs_err(
                                    ImageProcessingParameter::spec_default(),
                                    ps,
                                    i as int + 1,
                                    n as int,
                                );
                            }
                            return Err(ParamError::ContrastOutOfRange);
                        }
                        out.contrast_milli = m as i32;
                    },
                    None => {
                        proof {
                            lemma_fold_pairs_err(
                                ImageProcessingParameter::spec_default(),
                                ps,
                                i as int + 1,
                                n as int,
                            );
                        }
                        return Err(ParamError::InvalidContrast);
                    },
                }
            } else if str_eq(key.as_str(), "brighten") {
                match parse_signed(val.as_str()) {
                    Some(v) => {
                        out.brighten = v as i32;
                    },
                    None => {
                        proof {
                            lemma_fold_pairs_err(
                                ImageProcessingParameter::spec_default(),
                                ps,
                                i as int + 1,
                                n as int,
                            );
                        }
                        return Err(ParamError::InvalidBrighten);
                    },
                }
            }
            i += 1;
        }
        Ok(out)
    }
}


/// The character of a decimal digit.
pub open spec fn spec_digit_char(d: int) -> char {
    if d == 0 {
        '0'
    } else if d == 1 {
        '1'
    } else if d == 2 {
        '2'
    } else if d == 3 {
        '3'
    } else if d == 4 {
        '4'
    } else if d == 5 {
        '5'
    } else if d == 6 {
        '6'
    } else if d == 7 {
        '7'
    } else if d == 8 {
        '8'
    } else {
        '9'
    }
}

/// The decimal digits of a non-negative number, most significant first.
pub open spec fn spec_dec_digits(n: int) -> Seq<char>
    decreases n,
{
    if n < 10 {
        seq![spec_digit_char(n)]
    } else {
        spec_dec_digits(n / 10).push(spec_digit_char(n % 10))
    }
}

/// The decimal rendering of a signed number.
pub open spec fn spec_signed_dec(n: int) -> Seq<char> {
    if n < 0 {
        seq!['-'] + spec_dec_digits(-n)
    } else {
        spec_dec_digits(n)
    }
}

/// The decimal-fraction rendering of a value in thousandths: sign, whole
/// part, and the fraction digits with trailing zeros dropped; a whole
/// value carries no dot at all.
pub open spec fn spec_milli_chars(m: int) -> Seq<char> {
    let a = if m < 0 {
        -m
    } else {
        m
    };
    let sign: Seq<char> = if m < 0 {
        seq!['-']
    } else {
        Seq::empty()
    };
    let whole = a / 1000;
    let f = a % 1000;
    let d1 = f / 100;
    let d2 = (f / 10) % 10;
    let d3 = f % 10;
    sign + spec_dec_digits(whole) + (if f == 0 {
        Seq::empty()
    } else if d3 != 0 {
        seq!['.', spec_digit_char(d1), spec_digit_char(d2), spec_digit_char(d3)]
    } else if d2 != 0 {
        seq!['.', spec_digit_char(d1), spec_digit_char(d2)]
    } else {
        seq!['.', spec_digit_char(d1)]
    })
}

/// The query string the parameters write: the three keys in a fixed
/// order, contrast as a decimal fraction.
pub open spec fn spec_url_params(p: ImageProcessingParameter) -> Seq<char> {
    "?rotate-90-angle="@ + spec_dec_digits(p.rotate_90_angle as int) + "&contrast="@
        + spec_milli_chars(p.contrast_milli as int) + "&brighten="@ + spec_signed_dec(
        p.brighten as int,
    )
}

/// The one-character string of a decimal digit.
fn digit_str(d: u64) -> (r: &'static str)
    requires
        d < 10,
    ensures
        r@ == seq![spec_digit_char(d as int)],
{
    proof {
        reveal_strlit("0");
        reveal_strlit("1");
        reveal_strlit("2");
        reveal_strlit("3");
        reveal_strlit("4");
        reveal_strlit("5");
        reveal_strlit("6");
        reveal_strlit("7");
        reveal_strlit("8");
        reveal_strlit("9");
    }
    match d {
        0 => "0",
        1 => "1",
        2 => "2",
        3 => "3",
        4 => "4",
        5 => "5",
        6 => "6",
        7 => "7",
        8 => "8",
        _ => "9",
    }
}

/// Append a number's decimal digits.
fn append_dec(s: &mut String, n: u64)
    ensures
        final(s)@ == old(s)@ + spec_dec_digits(n as int),
    decreases n,
{
    if n >= 10 {
        append_dec(s, n / 10);
    }
    let ghost mid = s@;
    s.append(digit_str(n % 10));
    proof {
        if n < 10 {
            assert(s@ =~= old(s)@ + spec_dec_digits(n as int));
        } else {
            assert(mid == old(s)@ + spec_dec_digits(n as int / 10));
            assert(spec_dec_digits(n as int) == spec_dec_digits(n as int / 10).push(
                spec_digit_char(n as int % 10),
            ));
            assert(s@ =~= old(s)@ + spec_dec_digits(n as int));
        }
    }
}

/// Append a thousandths value as a decimal fraction.
fn append_milli(s: &mut String, m: i64)
    ensures
        final(s)@ == old(s)@ + spec_milli_chars(m as int),
{
    proof {
        reveal_strlit("-");
        reveal_strlit(".");
    }
    let a: u64 = if m < 0 {
        s.append("-");
        (-(m as i128)) as u64
    } else {
        m as u64
    };
    let whole = a / 1000;
    let f = a % 1000;
    append_dec(s, whole);
    if f != 0 {
        s.append(".");
        let d1 = f / 100;
        let d2 = (f / 10) % 10;
        let d3 = f % 10;
        if d3 != 0 {
            s.append(digit_str(d1));
            s.append(digit_str(d2));
            s.append(digit_str(d3));
        } else if d2 != 0 {
            s.append(digit_str(d1));
            s.append(digit_str(d2));
        } else {
            s.append(digit_str(d1));
        }
    }
    proof {
        assert(s@ =~= old(s)@ + spec_milli_chars(m as int));
    }
}

/// Character-for-character equality of two string slices.
#[verifier::loop_isolation(false)]
pub fn str_eq(a: &str, b: &str) -> (r: bool)
    ensures
        r == (a@ == b@),
{
    let na = a.unicode_len();
    let nb = b.unicode_len();
    if na != nb {
        proof {
            assert(a@.len() != b@.len());
        }
        return false;
    }
    let mut i: usize = 0;
    while i < na
        invariant
            i <= na,
            na == a@.len() && na == b@.len(),
            forall|j: int| 0 <= j < i ==> a@[j] == b@[j],
        decreases na - i,
    {
        if a.get_char(i) != b.get_char(i) {
            return false;
        }
        i += 1;
    }
    proof {
        assert(a@ =~= b@);
    }
    true
}

} // verus!
