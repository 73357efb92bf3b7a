use vstd::prelude::*;

verus! {

/// Appends one character to a string (`String::push` of std).
#[verifier::external_body]
pub(crate) fn push_char(s: &mut String, c: char)
    ensures
        final(s)@ == old(s)@.push(c),
{
    s.push(c);
}

/// The characters of a string slice, collected into a vector.
pub fn chars_of(s: &str) -> (res: Vec<char>)
    ensures
        res@ == s@,
{
    let mut out: Vec<char> = Vec::new();
    for c in it: s.chars()
        invariant
            out@ == it.seq().take(it.index() as int),
    {
        out.push(c);
    }
    out
}

/// The ASCII digit for a value below ten.
pub open spec fn digit_char(d: int) -> char {
    (48 + d) as char
}

/// The decimal representation of a natural number, most significant digit first.
pub open spec fn decimal(n: nat) -> Seq<char>
    decreases n,
{
    if n < 10 {
        seq![digit_char(n as int)]
    } else {
        decimal(n / 10).push(digit_char((n % 10) as int))
    }
}

/// Digits with a comma before every full group of three, counted from the right.
pub open spec fn grouped(d: Seq<char>) -> Seq<char>
    decreases d.len(),
{
    if d.len() <= 3 {
        d
    } else {
        grouped(d.take(d.len() - 3)) + seq![','] + d.skip(d.len() - 3)
    }
}

/// A signed integer written with thousands separators, as in `-1,234,567`.
pub open spec fn comma_int_text(v: int) -> Seq<char> {
    if v < 0 {
        seq!['-'] + grouped(decimal((-v) as nat))
    } else {
        grouped(decimal(v as nat))
    }
}

fn digit(d: u64) -> (c: char)
    requires
        d < 10,
    ensures
        c == digit_char(d as int),
{
    let b: u8 = 48u8 + (d as u8);
    b as char
}

/// Appends the decimal representation of `n`.
pub fn push_decimal(s: &mut String, n: u64)
    ensures
        final(s)@ == old(s)@ + decimal(n as nat),
    decreases n,
{
    if n >= 10 {
        push_decimal(s, n / 10);
    }
    push_char(s, digit(n % 10));
    assert(final(s)@ =~= old(s)@ + decimal(n as nat));
}

/// The decimal digits of `n`, most significant first.
pub fn decimal_chars(n: u64) -> (res: Vec<char>)
    ensures
        res@ == decimal(n as nat),
    decreases n,
{
    let mut out = if n >= 10 {
        decimal_chars(n / 10)
    } else {
        Vec::new()
    };
    out.push(digit(n % 10));
    assert(out@ =~= decimal(n as nat));
    out
}

fn push_grouped(s: &mut String, digits: &Vec<char>, end: usize)
    requires
        end <= digits@.len(),
    ensures
        final(s)@ == old(s)@ + grouped(digits@.take(end as int)),
    decreases end,
{
    let ghost d = digits@.take(end as int);
    if end <= 3 {
        let mut i: usize = 0;
        while i < end
            invariant
                i <= end <= digits@.len(),
                s@ == old(s)@ + digits@.take(i as int),
            decreases end - i,
        {
            push_char(s, digits[i]);
            assert(digits@.take(i + 1) =~= digits@.take(i as int).push(digits@[i as int]));
            i += 1;
        }
        assert(digits@.take(end as int) =~= d);
    } else {
        push_grouped(s, digits, end - 3);
        push_char(s, ',');
        let ghost mid = s@;
        let mut i: usize = end - 3;
        while i < end
            invariant
                3 < end <= digits@.len(),
                end - 3 <= i <= end,
                s@ == mid + digits@.subrange(end - 3, i as int),
            decreases end - i,
        {
            push_char(s, digits[i]);
            assert(digits@.subrange(end - 3, i + 1) =~= digits@.subrange(end - 3, i as int).push(
                digits@[i as int],
            ));
            i += 1;
        }
        assert(d.take(d.len() - 3) =~= digits@.take(end - 3));
        assert(d.skip(d.len() - 3) =~= digits@.subrange(end - 3, end as int));
        assert(final(s)@ =~= old(s)@ + grouped(d));
    }
}

/// Writes an integer with a comma between each group of three digits.
///
/// The magnitude of `i64::MIN` has no `i64`, and taking it panics, so that
/// one value is left out.
pub fn comma_int(value: i64) -> (res: String)
    requires
        value > i64::MIN,
    ensures
        res@ == comma_int_text(value as int),
{
    let mut out = String::new();
    let magnitude: u64 = if value < 0 {
        push_char(&mut out, '-');
        (-value) as u64
    } else {
        value as u64
    };
    let digits = decimal_chars(magnitude);
    push_grouped(&mut out, &digits, digits.len());
    assert(digits@.take(digits@.len() as int) =~= digits@);
    if value < 0 {
        assert(out@ =~= comma_int_text(value as int));
    } else {
        assert(out@ =~= comma_int_text(value as int));
    }
    out
}

/// A token count as shown in full: the integer with thousands separators.
pub fn full_tokens(value: i64) -> (res: String)
    requires
        value > i64::MIN,
    ensures
        res@ == comma_int_text(value as int),
{
    comma_int(value)
}


/// `seconds` as a short duration: `45s`, `5m` or `1m 30s`.
pub open spec fn duration_text(seconds: nat) -> Seq<char> {
    if seconds < 60 {
        decimal(seconds) + seq!['s']
    } else if seconds % 60 == 0 {
        decimal(seconds / 60) + seq!['m']
    } else {
        decimal(seconds / 60) + seq!['m', ' '] + decimal(seconds % 60) + seq!['s']
    }
}

/// Writes a number of seconds as minutes and seconds.
pub fn duration_label(seconds: u32) -> (res: String)
    ensures
        res@ == duration_text(seconds as nat),
{
    let mut out = String::new();
    if seconds < 60 {
        push_decimal(&mut out, seconds as u64);
        push_char(&mut out, 's');
    } else if seconds % 60 == 0 {
        push_decimal(&mut out, (seconds / 60) as u64);
        push_char(&mut out, 'm');
    } else {
        push_decimal(&mut out, (seconds / 60) as u64);
        push_char(&mut out, 'm');
        push_char(&mut out, ' ');
        push_decimal(&mut out, (seconds % 60) as u64);
        push_char(&mut out, 's');
    }
    assert(out@ =~= duration_text(seconds as nat));
    out
}

/// What one character becomes in escaped HTML text.
pub open spec fn escaped_char(c: char) -> Seq<char> {
    if c == '&' {
        seq!['&', 'a', 'm', 'p', ';']
    } else if c == '<' {
        seq!['&', 'l', 't', ';']
    } else if c == '>' {
        seq!['&', 'g', 't', ';']
    } else if c == '"' {
        seq!['&', 'q', 'u', 'o', 't', ';']
    } else {
        seq![c]
    }
}

/// A text with each of `&`, `<`, `>` and `"` replaced by its HTML entity.
pub open spec fn escaped(s: Seq<char>) -> Seq<char>
    decreases s.len(),
{
    if s.len() == 0 {
        seq![]
    } else {
        escaped(s.drop_last()) + escaped_char(s.last())
    }
}

fn push_seq4(s: &mut String, a: char, b: char, c: char, d: char)
    ensures
        final(s)@ == old(s)@ + seq![a, b, c, d],
{
    push_char(s, a);
    push_char(s, b);
    push_char(s, c);
    push_char(s, d);
    assert(s@ =~= old(s)@ + seq![a, b, c, d]);
}

fn push_escaped(s: &mut String, c: char)
    ensures
        final(s)@ == old(s)@ + escaped_char(c),
{
    if c == '&' {
        push_seq4(s, '&', 'a', 'm', 'p');
        push_char(s, ';');
    } else if c == '<' {
        push_seq4(s, '&', 'l', 't', ';');
    } else if c == '>' {
        push_seq4(s, '&', 'g', 't', ';');
    } else if c == '"' {
        push_seq4(s, '&', 'q', 'u', 'o');
        push_char(s, 't');
        push_char(s, ';');
    } else {
        push_char(s, c);
    }
    assert(final(s)@ =~= old(s)@ + escaped_char(c));
}

/// Escapes text for use inside HTML: `&`, `<`, `>` and `"` become entities.
pub fn html_escape(value: &str) -> (res: String)
    ensures
        res@ == escaped(value@),
{
    let mut out = String::new();
    for c in it: value.chars()
        invariant
            it.seq() == value@,
            out@ == escaped(it.seq().take(it.index() as int)),
    {
        let ghost prefix = it.seq().take(it.index() as int);
        push_escaped(&mut out, c);
        assert(it.seq().take(it.index() + 1).drop_last() =~= prefix);
    }
    assert(value@.take(value@.len() as int) =~= value@);
    out
}

/// Whether `t` occurs in `s` as a contiguous run of characters.
pub open spec fn has_substring(s: Seq<char>, t: Seq<char>) -> bool {
    exists|i: int| 0 <= i && i + t.len() <= s.len() && #[trigger] s.subrange(i, i + t.len()) == t
}

fn matches_at(s: &Vec<char>, t: &Vec<char>, i: usize) -> (res: bool)
    requires
        i + t@.len() <= s@.len(),
    ensures
        res == (s@.subrange(i as int, i + t@.len()) == t@),
{
    let n = s.len();
    let mut j: usize = 0;
    while j < t.len()
        invariant
            n == s@.len(),
            i + t@.len() <= s@.len(),
            j <= t@.len(),
            forall|k: int| 0 <= k < j ==> s@[i + k] == t@[k],
        decreases t@.len() - j,
    {
        assert(i + j < s@.len());
        if s[i + j] != t[j] {
            assert(s@.subrange(i as int, i + t@.len())[j as int] != t@[j as int]);
            return false;
        }
        j += 1;
    }
    assert(s@.subrange(i as int, i + t@.len()) =~= t@);
    true
}

/// Whether the characters `t` occur in `s`.
pub fn contains_chars(s: &Vec<char>, t: &Vec<char>) -> (res: bool)
    ensures
        res == has_substring(s@, t@),
{
    if t.len() > s.len() {
        return false;
    }
    let last = s.len() - t.len();
    let mut i: usize = 0;
    loop
        invariant
            last + t@.len() == s@.len(),
            i <= last,
            forall|k: int| 0 <= k < i ==> #[trigger] s@.subrange(k, k + t@.len()) != t@,
        decreases last - i,
    {
        if matches_at(s, t, i) {
            return true;
        }
        if i == last {
            return false;
        }
        i += 1;
    }
}

/// Whether `p` is a prefix of `s`.
pub open spec fn starts_with(s: Seq<char>, p: Seq<char>) -> bool {
    p.len() <= s.len() && s.take(p.len() as int) == p
}

/// Whether the characters of `s` begin with those of `p`.
pub fn has_prefix(s: &Vec<char>, p: &str) -> (res: bool)
    ensures
        res == starts_with(s@, p@),
{
    let pc = chars_of(p);
    if pc.len() > s.len() {
        return false;
    }
    let mut i: usize = 0;
    while i < pc.len()
        invariant
            pc@ == p@,
            pc@.len() <= s@.len(),
            i <= pc@.len(),
            forall|k: int| 0 <= k < i ==> s@[k] == pc@[k],
        decreases pc@.len() - i,
    {
        if s[i] != pc[i] {
            assert(s@.take(pc@.len() as int)[i as int] != pc@[i as int]);
            return false;
        }
        i += 1;
    }
    assert(s@.take(pc@.len() as int) =~= pc@);
    true
}

/// Whether the characters of `s` are exactly those of `t`.
pub fn chars_equal(s: &Vec<char>, t: &str) -> (res: bool)
    ensures
        res == (s@ == t@),
{
    let tc = chars_of(t);
    if tc.len() != s.len() {
        return false;
    }
    assert(s@.take(s@.len() as int) =~= s@);
    has_prefix(s, t)
}

/// The plan name as shown: `prolite` is shown as `$100 Pro (Pro Lite)`.
pub open spec fn plan_label(plan: Seq<char>) -> Seq<char> {
    if plan == "prolite"@ {
        "$100 Pro (Pro Lite)"@
    } else {
        plan
    }
}

/// The plan name as shown to the user.
pub fn display_plan(plan: &str) -> (res: &str)
    ensures
        res@ == plan_label(plan@),
{
    if chars_equal(&chars_of(plan), "prolite") {
        "$100 Pro (Pro Lite)"
    } else {
        plan
    }
}

/// The celebration text over the confetti: the weekly announcement for a
/// big celebration, the 5-hour one for a message that mentions `5 hour`, and
/// the message itself otherwise.
pub open spec fn overlay_body(message: Seq<char>, big: bool) -> Seq<char> {
    if big {
        "THE WEEKLY RATE LIMIT HAS BEEN RESET!"@
    } else if has_substring(message, "5 hour"@) {
        "The 5 hour rate limit has been reset!"@
    } else {
        message
    }
}

/// The Pango markup of the celebration overlay.
pub open spec fn overlay_text(message: Seq<char>, big: bool) -> Seq<char> {
    if big {
        "<span font_desc=\"72\">🎉 🎊 🥳 ✨ 🎉</span>\n<span font_desc=\"24\" weight=\"bold\">"@
            + overlay_body(message, big) + "</span>"@
    } else {
        "<span font_desc=\"58\">🎉 🎊 ✨</span>\n<span font_desc=\"20\" weight=\"bold\">"@
            + overlay_body(message, big) + "</span>"@
    }
}

/// Builds the markup of the celebration overlay for a reset message.
pub fn overlay_markup(message: &str, big: bool) -> (res: String)
    ensures
        res@ == overlay_text(message@, big),
{
    let mut out = if big {
        String::from_str(
            "<span font_desc=\"72\">🎉 🎊 🥳 ✨ 🎉</span>\n<span font_desc=\"24\" weight=\"bold\">",
        )
    } else {
        String::from_str(
            "<span font_desc=\"58\">🎉 🎊 ✨</span>\n<span font_desc=\"20\" weight=\"bold\">",
        )
    };
    if big {
        out.append("THE WEEKLY RATE LIMIT HAS BEEN RESET!");
    } else if contains_chars(&chars_of(message), &chars_of("5 hour")) {
        out.append("The 5 hour rate limit has been reset!");
    } else {
        out.append(message);
    }
    out.append("</span>");
    out
}

/// A text without its commas.
pub open spec fn without_commas(s: Seq<char>) -> Seq<char>
    decreases s.len(),
{
    if s.len() == 0 {
        seq![]
    } else if s.last() == ',' {
        without_commas(s.drop_last())
    } else {
        without_commas(s.drop_last()).push(s.last())
    }
}

proof fn lemma_without_commas_concat(a: Seq<char>, b: Seq<char>)
    ensures
        without_commas(a + b) == without_commas(a) + without_commas(b),
    decreases b.len(),
{
    if b.len() == 0 {
        assert(a + b =~= a);
        assert(without_commas(a) + without_commas(b) =~= without_commas(a));
    } else {
        lemma_without_commas_concat(a, b.drop_last());
        assert((a + b).drop_last() =~= a + b.drop_last());
        assert((a + b).last() == b.last());
        if b.last() == ',' {
        } else {
            assert(without_commas(a) + without_commas(b) =~= (without_commas(a) + without_commas(
                b.drop_last(),
            )).push(b.last()));
        }
    }
}

proof fn lemma_no_commas_fixed(s: Seq<char>)
    requires
        forall|i: int| 0 <= i < s.len() ==> s[i] != ',',
    ensures
        without_commas(s) == s,
    decreases s.len(),
{
    if s.len() > 0 {
        lemma_no_commas_fixed(s.drop_last());
        assert(without_commas(s.drop_last()).push(s.last()) =~= s);
    }
}

/// Thousands separators change no digit: taking the commas out of a grouped
/// run of digits gives the digits back.
pub proof fn lemma_grouping_keeps_digits(d: Seq<char>)
    requires
        forall|i: int| 0 <= i < d.len() ==> d[i] != ',',
    ensures
        without_commas(grouped(d)) == d,
    decreases d.len(),
{
    if d.len() <= 3 {
        lemma_no_commas_fixed(d);
    } else {
        let head = d.take(d.len() - 3);
        let tail = d.skip(d.len() - 3);
        lemma_grouping_keeps_digits(head);
        lemma_without_commas_concat(grouped(head) + seq![','], tail);
        lemma_without_commas_concat(grouped(head), seq![',']);
        let c = seq![','];
        assert(c.len() == 1 && c.last() == ',');
        assert(c.drop_last() =~= Seq::<char>::empty());
        assert(without_commas(c.drop_last()) =~= Seq::<char>::empty());
        assert(without_commas(c) =~= Seq::<char>::empty());
        lemma_no_commas_fixed(tail);
        assert(head + tail =~= d);
    }
}

/// Decimal digits hold no comma.
pub proof fn lemma_decimal_digits(n: nat)
    ensures
        forall|i: int| 0 <= i < decimal(n).len() ==> '0' <= #[trigger] decimal(n)[i] <= '9',
        decimal(n).len() >= 1,
    decreases n,
{
    if n >= 10 {
        lemma_decimal_digits(n / 10);
    }
}

/// Writing a count with separators keeps its digits: without the commas,
/// `comma_int` gives the sign and the decimal digits of the value.
pub proof fn lemma_comma_int_digits(v: int)
    ensures
        without_commas(comma_int_text(v)) == (if v < 0 {
            seq!['-'] + decimal((-v) as nat)
        } else {
            decimal(v as nat)
        }),
{
    let m: nat = if v < 0 {
        (-v) as nat
    } else {
        v as nat
    };
    lemma_decimal_digits(m);
    lemma_grouping_keeps_digits(decimal(m));
    if v < 0 {
        lemma_without_commas_concat(seq!['-'], grouped(decimal(m)));
        let c = seq!['-'];
        assert(c.len() == 1 && c.last() == '-');
        assert(c.drop_last() =~= Seq::<char>::empty());
        assert(without_commas(c.drop_last()) =~= Seq::<char>::empty());
        assert(without_commas(c) =~= seq!['-']);
    }
}

/// Escaped text holds no `<`, `>` or `"`, so it cannot open or close a tag or
/// an attribute.
pub proof fn lemma_escaped_is_inert(s: Seq<char>)
    ensures
        forall|i: int|
            0 <= i < escaped(s).len() ==> #[trigger] escaped(s)[i] != '<' && escaped(s)[i] != '>'
                && escaped(s)[i] != '"',
    decreases s.len(),
{
    if s.len() > 0 {
        lemma_escaped_is_inert(s.drop_last());
        let p = escaped(s.drop_last());
        let e = escaped_char(s.last());
        assert forall|i: int| 0 <= i < escaped(s).len() implies #[trigger] escaped(s)[i] != '<'
            && escaped(s)[i] != '>' && escaped(s)[i] != '"' by {
            if i < p.len() {
                assert(escaped(s)[i] == p[i]);
            } else {
                assert(escaped(s)[i] == e[i - p.len()]);
            }
        }
    }
}

/// A text without its NUL characters.
pub open spec fn without_nul(s: Seq<char>) -> Seq<char>
    decreases s.len(),
{
    if s.len() == 0 {
        seq![]
    } else if s.last() == '\0' {
        without_nul(s.drop_last())
    } else {
        without_nul(s.drop_last()).push(s.last())
    }
}

/// Drops the NUL characters of a text, so that it can be handed to C.
pub fn strip_nul(value: &str) -> (res: String)
    ensures
        res@ == without_nul(value@),
        forall|i: int| 0 <= i < res@.len() ==> res@[i] != '\0',
{
    let mut out = String::new();
    for c in it: value.chars()
        invariant
            it.seq() == value@,
            out@ == without_nul(it.seq().take(it.index() as int)),
            forall|i: int| 0 <= i < out@.len() ==> out@[i] != '\0',
    {
        let ghost prefix = it.seq().take(it.index() as int);
        if c != '\0' {
            push_char(&mut out, c);
        }
        assert(it.seq().take(it.index() + 1).drop_last() =~= prefix);
    }
    assert(value@.take(value@.len() as int) =~= value@);
    out
}

} // verus!
