use vstd::prelude::*;
use vstd::std_specs::iter::IteratorSpec;

verus! {

/// Pushing an item onto a vector pushes the item's deep view onto the vector's deep view.
pub proof fn lemma_deep_view_push<T: DeepView>(before: Vec<T>, after: Vec<T>, item: T)
    requires
        after@ == before@.push(item),
    ensures
        after.deep_view() == before.deep_view().push(item.deep_view()),
{
    assert(after.deep_view() =~= before.deep_view().push(item.deep_view()));
}

/// The deep view of a vector's first `n + 1` items is that of its first `n` with the deep
/// view of the next item pushed.
pub proof fn lemma_deep_view_take_next<T: DeepView>(list: Vec<T>, n: int)
    requires
        0 <= n < list@.len(),
    ensures
        list.deep_view().take(n + 1) == list.deep_view().take(n).push(list@[n].deep_view()),
        list.deep_view().take(list@.len() as int) == list.deep_view(),
{
    assert(list.deep_view().take(n + 1) =~= list.deep_view().take(n).push(list@[n].deep_view()));
    assert(list.deep_view().take(list@.len() as int) =~= list.deep_view());
}

/// Appends one string to a list of strings.
pub fn push_text(list: &mut Vec<String>, text: String)
    ensures
        final(list).deep_view() == old(list).deep_view().push(text@),
        final(list)@ == old(list)@.push(text),
{
    list.push(text);
    assert(list.deep_view() =~= old(list).deep_view().push(text@));
}

/// Appends copies of all the strings of `more` to a list of strings.
pub fn extend_texts(list: &mut Vec<String>, more: &[String])
    ensures
        final(list).deep_view() == old(list).deep_view() + more.deep_view(),
{
    let mut i: usize = 0;
    while i < more.len()
        invariant
            i <= more.len(),
            list.deep_view() == old(list).deep_view() + more.deep_view().take(i as int),
        decreases more.len() - i,
    {
        let ghost before = list.deep_view();
        push_text(list, more[i].clone());
        i = i + 1;
        assert(more.deep_view().take(i as int) =~= more.deep_view().take(i - 1).push(
            more@[i - 1]@,
        ));
        assert(list.deep_view() =~= old(list).deep_view() + more.deep_view().take(i as int));
    }
    assert(more.deep_view().take(more.len() as int) =~= more.deep_view());
}


/// The character of one decimal digit.
pub open spec fn digit_char(d: int) -> char {
    if d == 0 {
        '0'
    } else if d == 1 {
        '1'
    } else if d == 2 {
        '2'
    } else if d == 3 {
        '3'
    } else if d == 4 {
        '4'
    } else if d == 5 {
        '5'
    } else if d == 6 {
        '6'
    } else if d == 7 {
        '7'
    } else if d == 8 {
        '8'
    } else {
        '9'
    }
}

/// The decimal digits of a natural number, most significant first, without leading zeros.
pub open spec fn decimal_nat(n: nat) -> Seq<char>
    decreases n,
{
    if n < 10 {
        seq![digit_char(n as int)]
    } else {
        decimal_nat(n / 10).push(digit_char((n % 10) as int))
    }
}

/// The decimal text of an integer: a minus sign for a negative one, then its digits.
pub open spec fn decimal(n: int) -> Seq<char> {
    if n < 0 {
        seq!['-'] + decimal_nat((-n) as nat)
    } else {
        decimal_nat(n as nat)
    }
}

/// `i128::to_string` of std. The contract claims that the text is the decimal rendering of the
/// number: a minus sign where it is negative, then the digits without leading zeros.
#[verifier::external_body]
pub(crate) fn decimal_text(n: i128) -> (text: String)
    ensures
        text@ == decimal(n as int),
{
    n.to_string()
}

/// `needle` occurs in `haystack` as a run of consecutive characters, starting at `at`.
pub open spec fn occurs_at(haystack: Seq<char>, needle: Seq<char>, at: int) -> bool {
    0 <= at && at + needle.len() <= haystack.len() && haystack.subrange(
        at,
        at + needle.len(),
    ) == needle
}

/// `needle` occurs somewhere in `haystack`. The empty text occurs in every text.
pub open spec fn is_infix(haystack: Seq<char>, needle: Seq<char>) -> bool {
    exists|at: int| occurs_at(haystack, needle, at)
}

/// The characters of a string, one by one.
pub fn chars_of(text: &str) -> (chars: Vec<char>)
    ensures
        chars@ == text@,
{
    let mut rest = text.chars();
    let mut chars: Vec<char> = Vec::new();
    assert(chars@ + rest.remaining() =~= text@);
    loop
        invariant
            rest.obeys_prophetic_iter_laws(),
            rest.decrease() is Some,
            chars@ + rest.remaining() == text@,
        decreases rest.decrease()->0,
    {
        let ghost before = rest.remaining();
        match rest.next() {
            Some(c) => {
                chars.push(c);
                assert(chars@ + rest.remaining() =~= text@);
            },
            None => {
                assert(chars@ =~= text@);
                return chars;
            },
        }
    }
}

fn matches_at(haystack: &Vec<char>, needle: &Vec<char>, at: usize) -> (found: bool)
    requires
        at + needle@.len() <= haystack@.len(),
    ensures
        found == occurs_at(haystack@, needle@, at as int),
{
    let mut j: usize = 0;
    while j < needle.len()
        invariant
            j <= needle.len(),
            at + needle.len() <= haystack.len(),
            forall|k: int| 0 <= k < j ==> haystack@[at + k] == needle@[k],
        decreases needle.len() - j,
    {
        if haystack[at + j] != needle[j] {
            assert(haystack@.subrange(at as int, at + needle@.len())[j as int] != needle@[j as int]);
            return false;
        }
        j = j + 1;
    }
    assert(haystack@.subrange(at as int, at + needle@.len()) =~= needle@);
    true
}

/// Tells whether `needle` occurs in `haystack`.
pub fn contains_text(haystack: &str, needle: &str) -> (found: bool)
    ensures
        found == is_infix(haystack@, needle@),
{
    let hay = chars_of(haystack);
    let pin = chars_of(needle);
    if pin.len() > hay.len() {
        return false;
    }
    let last: usize = hay.len() - pin.len();
    let mut at: usize = 0;
    while at < last
        invariant
            hay@ == haystack@,
            pin@ == needle@,
            last + pin.len() == hay.len(),
            at <= last,
            forall|k: int| 0 <= k < at ==> !occurs_at(hay@, pin@, k),
        decreases last - at,
    {
        if matches_at(&hay, &pin, at) {
            return true;
        }
        at = at + 1;
    }
    matches_at(&hay, &pin, last)
}

/// A copy of an optional text.
pub fn clone_text(text: &Option<String>) -> (copy: Option<String>)
    ensures
        copy.deep_view() == text.deep_view(),
{
    match text {
        Some(t) => Some(t.clone()),
        None => None,
    }
}

/// A copy of a list of texts.
pub fn clone_texts(texts: &Vec<String>) -> (copy: Vec<String>)
    ensures
        copy.deep_view() == texts.deep_view(),
{
    let mut copy: Vec<String> = Vec::new();
    assert(copy.deep_view() =~= Seq::<Seq<char>>::empty());
    extend_texts(&mut copy, texts.as_slice());
    assert(copy.deep_view() =~= texts.deep_view());
    copy
}

/// Tells whether two strings hold the same text.
pub fn same_text(a: &str, b: &str) -> (same: bool)
    ensures
        same == (a@ == b@),
{
    let left = chars_of(a);
    let right = chars_of(b);
    if left.len() != right.len() {
        return false;
    }
    let mut i: usize = 0;
    while i < left.len()
        invariant
            left@ == a@,
            right@ == b@,
            left.len() == right.len(),
            i <= left.len(),
            forall|k: int| 0 <= k < i ==> left@[k] == right@[k],
        decreases left.len() - i,
    {
        if left[i] != right[i] {
            assert(a@[i as int] != b@[i as int]);
            return false;
        }
        i = i + 1;
    }
    assert(left@ =~= right@);
    true
}

/// One of the ten decimal digits.
pub open spec fn is_digit(c: char) -> bool {
    '0' <= c <= '9'
}

/// What a digit counts for.
pub open spec fn digit_value(c: char) -> nat {
    if is_digit(c) {
        (c as u32 - 48) as nat
    } else {
        0
    }
}

/// The number of characters before the first one that is no digit.
pub open spec fn digit_run(s: Seq<char>) -> int
    decreases s.len(),
{
    if s.len() == 0 || !is_digit(s[0]) {
        0
    } else {
        1 + digit_run(s.drop_first())
    }
}

/// The number that a run of digits writes.
pub open spec fn number(digits: Seq<char>) -> nat
    decreases digits.len(),
{
    if digits.len() == 0 {
        0
    } else {
        number(digits.drop_last()) * 10 + digit_value(digits.last())
    }
}

/// The number of characters before the first `stop`; the length where there is none.
pub open spec fn leading(s: Seq<char>, stop: char) -> int
    decreases s.len(),
{
    if s.len() == 0 || s[0] == stop {
        0
    } else {
        1 + leading(s.drop_first(), stop)
    }
}

proof fn lemma_leading(s: Seq<char>, stop: char, n: int)
    requires
        0 <= n <= s.len(),
        forall|k: int| 0 <= k < n ==> s[k] != stop,
        n == s.len() || s[n] == stop,
    ensures
        leading(s, stop) == n,
    decreases s.len(),
{
    if n > 0 {
        assert(s[0] != stop);
        lemma_leading(s.drop_first(), stop, n - 1);
    }
}

proof fn lemma_digit_run(s: Seq<char>, n: int)
    requires
        0 <= n <= s.len(),
        forall|k: int| 0 <= k < n ==> is_digit(s[k]),
        n == s.len() || !is_digit(s[n]),
    ensures
        digit_run(s) == n,
    decreases s.len(),
{
    if n > 0 {
        assert(is_digit(s[0]));
        lemma_digit_run(s.drop_first(), n - 1);
    }
}

proof fn lemma_digit_run_reaches(s: Seq<char>, n: int)
    requires
        0 <= n <= s.len(),
        forall|k: int| 0 <= k < n ==> is_digit(s[k]),
    ensures
        n <= digit_run(s) <= s.len(),
    decreases s.len(),
{
    if s.len() > 0 && is_digit(s[0]) {
        if n > 0 {
            lemma_digit_run_reaches(s.drop_first(), n - 1);
        } else {
            lemma_digit_run_reaches(s.drop_first(), 0);
        }
    }
}

proof fn lemma_number_grows(digits: Seq<char>, n: int)
    requires
        0 <= n <= digits.len(),
    ensures
        number(digits.take(n)) <= number(digits),
    decreases digits.len() - n,
{
    if n < digits.len() {
        lemma_number_grows(digits, n + 1);
        assert(digits.take(n + 1).drop_last() =~= digits.take(n));
        assert(number(digits.take(n + 1)) >= number(digits.take(n)) * 10);
    } else {
        assert(digits.take(n) =~= digits);
    }
}

/// Finds the first `stop` at or behind position `from`; the length where there is none.
pub fn find(chars: &Vec<char>, from: usize, stop: char) -> (at: usize)
    requires
        from <= chars.len(),
    ensures
        from <= at <= chars.len(),
        at - from == leading(chars@.skip(from as int), stop),
{
    let mut at: usize = from;
    while at < chars.len() && chars[at] != stop
        invariant
            from <= at <= chars.len(),
            forall|k: int| from <= k < at ==> chars@[k] != stop,
        decreases chars.len() - at,
    {
        at = at + 1;
    }
    proof {
        lemma_leading(chars@.skip(from as int), stop, at - from);
    }
    at
}


/// Reads the run of digits that begins at position `from`, as a number that does not
/// exceed `limit`. Gives the number and the position behind the run; nothing where no digit
/// stands at `from` or the run writes a larger number.
pub fn digits_from(chars: &Vec<char>, from: usize, limit: u64) -> (read: Option<(u64, usize)>)
    requires
        from <= chars.len(),
    ensures
        ({
            let run = digit_run(chars@.skip(from as int));
            let value = number(chars@.subrange(from as int, from + run));
            &&& 0 <= run
            &&& from + run <= chars.len()
            &&& run == 0 || value > limit ==> read is None
            &&& run > 0 && value <= limit ==> read == Some((value as u64, (from + run) as usize))
        }),
{
    let ghost rest = chars@.skip(from as int);
    let mut at: usize = from;
    let mut value: u64 = 0;
    assert(chars@.subrange(from as int, from as int) =~= Seq::<char>::empty());
    while at < chars.len() && '0' <= chars[at] && chars[at] <= '9'
        invariant
            from <= at <= chars.len(),
            rest == chars@.skip(from as int),
            forall|k: int| 0 <= k < at - from ==> is_digit(rest[k]),
            value == number(chars@.subrange(from as int, at as int)),
            value <= limit,
        decreases chars.len() - at,
    {
        let digit = (chars[at] as u32 - 48) as u128;
        let ghost run = chars@.subrange(from as int, at + 1);
        proof {
            assert(run.drop_last() =~= chars@.subrange(from as int, at as int));
            assert(number(run) == value * 10 + digit);
        }
        let next: u128 = value as u128 * 10 + digit;
        if next > limit as u128 {
            proof {
                // The run of digits only grows the number, which is already too large.
                lemma_digit_run_reaches(rest, at - from + 1);
                let end = digit_run(rest);
                lemma_number_grows(rest.take(end), at - from + 1);
                assert(rest.take(end).take(at - from + 1) =~= run);
                assert(rest.take(end) =~= chars@.subrange(from as int, from + end));
            }
            return None;
        }
        value = next as u64;
        at = at + 1;
    }
    proof {
        lemma_digit_run(rest, at - from);
    }
    if at == from {
        None
    } else {
        Some((value, at))
    }
}


/// The text in lower case, as `str::to_lowercase` of std gives it.
pub uninterp spec fn lowercased(text: Seq<char>) -> Seq<char>;

/// `str::to_lowercase` of std. The contract names the result: the lower case of a text
/// depends on the text alone.
#[verifier::external_body]
pub(crate) fn lowercase(text: &str) -> (lowered: String)
    ensures
        lowered@ == lowercased(text@),
{
    text.to_lowercase()
}

/// Tells whether the characters from position `from` on begin with `word`.
pub fn has_prefix(chars: &Vec<char>, from: usize, word: &str) -> (has: bool)
    requires
        from <= chars.len(),
    ensures
        has == word@.is_prefix_of(chars@.skip(from as int)),
{
    let letters = chars_of(word);
    if letters.len() > chars.len() - from {
        return false;
    }
    let mut i: usize = 0;
    while i < letters.len()
        invariant
            i <= letters.len(),
            from + letters.len() <= chars.len(),
            letters@ == word@,
            forall|k: int| 0 <= k < i ==> chars@[from + k] == letters@[k],
        decreases letters.len() - i,
    {
        if chars[from + i] != letters[i] {
            assert(chars@.skip(from as int).subrange(0, word@.len() as int)[i as int]
                != word@[i as int]);
            return false;
        }
        i = i + 1;
    }
    assert(word@ =~= chars@.skip(from as int).subrange(0, word@.len() as int));
    true
}

/// A character that separates words: a space, a tab, a line feed or a carriage return.
pub open spec fn is_blank(c: char) -> bool {
    c == ' ' || c == '\t' || c == '\n' || c == '\r'
}

/// The number of characters before the first blank; the length where there is none.
pub open spec fn word_len(s: Seq<char>) -> int
    decreases s.len(),
{
    if s.len() == 0 || is_blank(s[0]) {
        0
    } else {
        1 + word_len(s.drop_first())
    }
}

/// The words of a text: its longest runs of characters that are not blank, in order.
pub open spec fn words(s: Seq<char>) -> Seq<Seq<char>>
    decreases s.len(),
{
    let n = word_len(s);
    if s.len() == 0 {
        Seq::empty()
    } else if n <= 0 || n > s.len() {
        words(s.drop_first())
    } else {
        seq![s.take(n)] + words(s.skip(n))
    }
}

proof fn lemma_word_len(s: Seq<char>, n: int)
    requires
        0 <= n <= s.len(),
        forall|k: int| 0 <= k < n ==> !is_blank(s[k]),
        n == s.len() || is_blank(s[n]),
    ensures
        word_len(s) == n,
    decreases s.len(),
{
    if n > 0 {
        assert(!is_blank(s[0]));
        lemma_word_len(s.drop_first(), n - 1);
    }
}

/// Splits a text into its words.
pub fn split_words(text: &str) -> (list: Vec<String>)
    ensures
        list.deep_view() == words(text@),
{
    let chars = chars_of(text);
    let mut list: Vec<String> = Vec::new();
    let mut at: usize = 0;
    assert(chars@.skip(0) =~= chars@);
    assert(list.deep_view() =~= Seq::<Seq<char>>::empty());
    while at < chars.len()
        invariant
            at <= chars.len(),
            chars@ == text@,
            words(text@) == list.deep_view() + words(chars@.skip(at as int)),
        decreases chars.len() - at,
    {
        let ghost rest = chars@.skip(at as int);
        let c = chars[at];
        if c == ' ' || c == '\t' || c == '\n' || c == '\r' {
            proof {
                lemma_word_len(rest, 0);
                assert(rest.drop_first() =~= chars@.skip(at + 1));
            }
            at = at + 1;
        } else {
            let mut end: usize = at + 1;
            while end < chars.len() && !(chars[end] == ' ' || chars[end] == '\t' || chars[end]
                == '\n' || chars[end] == '\r')
                invariant
                    at < end <= chars.len(),
                    forall|k: int| at <= k < end ==> !is_blank(chars@[k]),
                decreases chars.len() - end,
            {
                end = end + 1;
            }
            let word = text.substring_char(at, end).to_owned();
            let ghost before = list.deep_view();
            proof {
                lemma_word_len(rest, end - at);
                assert(rest.take(end - at) =~= text@.subrange(at as int, end as int));
                assert(rest.skip(end - at) =~= chars@.skip(end as int));
            }
            push_text(&mut list, word);
            assert(list.deep_view() + words(chars@.skip(end as int)) =~= before + (seq![word@]
                + words(chars@.skip(end as int))));
            at = end;
        }
    }
    assert(list.deep_view() + Seq::<Seq<char>>::empty() =~= list.deep_view());
    list
}

} // verus!

