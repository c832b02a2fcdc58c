//! Keeping secrets out of log text: a registry of known secrets that are
//! replaced wherever they appear, and a pattern pass that catches tokens
//! shaped like stream keys before anything registered them.

use vstd::prelude::*;

use crate::text::{
    char_utf8_width, chars_of, is_ascii_alnum, is_ascii_alphanumeric, is_whitespace, is_ws,
    push_char, string_of_range, utf8_len, utf8_width,
};

verus! {

/// What a redacted secret is replaced with.
pub open spec fn marker() -> Seq<char> {
    "[REDACTED]"@
}

/// `pat` occurs in `s` at index `i`.
pub open spec fn occurs_at(s: Seq<char>, pat: Seq<char>, i: int) -> bool {
    0 <= i && i + pat.len() <= s.len() && s.subrange(i, i + pat.len()) == pat
}

/// `str::replace` for a non-empty pattern: occurrences are found left to
/// right, never overlapping, and each is replaced by `rep`.
pub open spec fn replace_all(s: Seq<char>, pat: Seq<char>, rep: Seq<char>) -> Seq<char>
    decreases s.len(),
{
    if pat.len() == 0 || s.len() < pat.len() {
        s
    } else if s.take(pat.len() as int) == pat {
        rep + replace_all(s.skip(pat.len() as int), pat, rep)
    } else {
        seq![s[0]] + replace_all(s.skip(1), pat, rep)
    }
}

/// `text` with each secret replaced by the marker, the secrets taken in
/// order.
pub open spec fn redact_with(text: Seq<char>, secrets: Seq<Seq<char>>) -> Seq<char>
    decreases secrets.len(),
{
    if secrets.len() == 0 {
        text
    } else {
        replace_all(redact_with(text, secrets.drop_last()), secrets.last(), marker())
    }
}

/// No element occurs twice.
pub open spec fn distinct(s: Seq<Seq<char>>) -> bool {
    forall|i: int, j: int| 0 <= i < s.len() && 0 <= j < s.len() && i != j ==> s[i] != s[j]
}

/// Index of the first `x` in `s`, or -1.
pub open spec fn position_of(s: Seq<Seq<char>>, x: Seq<char>) -> int
    decreases s.len(),
{
    if s.len() == 0 {
        -1
    } else if s[0] == x {
        0
    } else {
        let p = position_of(s.drop_first(), x);
        if p < 0 { -1 } else { p + 1 }
    }
}

/// Secrets shorter than this many bytes are never registered: redacting
/// them would mangle unrelated text.
pub open spec fn min_secret_bytes() -> int {
    8
}

/// The registry after registering `x`, whose UTF-8 encoding has
/// `byte_len` bytes.
pub open spec fn register_effect(s: Seq<Seq<char>>, x: Seq<char>, byte_len: int) -> Seq<Seq<char>> {
    if byte_len < min_secret_bytes() || s.contains(x) {
        s
    } else {
        s.push(x)
    }
}

/// The registry after forgetting `x`.
pub open spec fn forget_effect(s: Seq<Seq<char>>, x: Seq<char>) -> Seq<Seq<char>> {
    let p = position_of(s, x);
    if p >= 0 {
        s.remove(p)
    } else {
        s
    }
}

proof fn lemma_position_of(s: Seq<Seq<char>>, x: Seq<char>, i: int)
    requires
        0 <= i <= s.len(),
        forall|j: int| 0 <= j < i ==> s[j] != x,
        i < s.len() ==> s[i] == x,
    ensures
        position_of(s, x) == (if i < s.len() { i } else { -1 }),
    decreases i,
{
    if i > 0 {
        lemma_position_of(s.drop_first(), x, i - 1);
    }
}

proof fn lemma_position_of_bounds(s: Seq<Seq<char>>, x: Seq<char>)
    ensures
        position_of(s, x) >= 0 <==> s.contains(x),
        position_of(s, x) >= 0 ==> position_of(s, x) < s.len() && s[position_of(s, x)] == x,
    decreases s.len(),
{
    if s.len() > 0 && s[0] != x {
        lemma_position_of_bounds(s.drop_first(), x);
        if s.contains(x) {
            let k = choose|k: int| 0 <= k < s.len() && s[k] == x;
            assert(s.drop_first()[k - 1] == x);
        }
        if s.drop_first().contains(x) {
            let k = choose|k: int| 0 <= k < s.drop_first().len() && s.drop_first()[k] == x;
            assert(s[k + 1] == x);
        }
    } else if s.len() > 0 {
        assert(s[0] == x);
    }
}

/// Registered secrets, replaced by `[REDACTED]` in any text passed through
/// `redact`. Nothing is registered twice.
pub struct SecretRegistry {
    secrets: Vec<String>,
}

impl View for SecretRegistry {
    type V = Seq<Seq<char>>;

    closed spec fn view(&self) -> Seq<Seq<char>> {
        self.secrets@.map_values(|s: String| s@)
    }
}

impl SecretRegistry {
    /// The registry's invariant: secrets are non-empty and distinct.
    pub closed spec fn wf(&self) -> bool {
        &&& distinct(self@)
        &&& forall|i: int| 0 <= i < self@.len() ==> #[trigger] self@[i].len() > 0
    }

    pub fn new() -> (r: Self)
        ensures
            r.wf(),
            r@ == Seq::<Seq<char>>::empty(),
    {
        let r = SecretRegistry { secrets: Vec::new() };
        assert(r@ =~= Seq::<Seq<char>>::empty());
        r
    }

    fn index_of(&self, secret: &String) -> (r: usize)
        ensures
            r <= self@.len(),
            forall|j: int| 0 <= j < r ==> self@[j] != secret@,
            r < self@.len() ==> self@[r as int] == secret@,
    {
        let mut i: usize = 0;
        while i < self.secrets.len()
            invariant
                0 <= i <= self.secrets@.len(),
                self@.len() == self.secrets@.len(),
                forall|j: int| 0 <= j < i ==> self@[j] != secret@,
            decreases self.secrets@.len() - i,
        {
            if self.secrets[i] == *secret {
                return i;
            }
            i += 1;
        }
        i
    }

    /// Registers a secret for redaction. Values shorter than eight bytes
    /// are ignored, and a secret already registered is kept once.
    pub fn register(&mut self, secret: &str)
        requires
            old(self).wf(),
        ensures
            final(self).wf(),
            final(self)@ == register_effect(old(self)@, secret@, utf8_len(secret@)),
    {
        let chars = chars_of(secret);
        if !utf8_len_at_least(&chars, 8) {
            return;
        }
        let s = String::from_str(secret);
        let i = self.index_of(&s);
        if i < self.secrets.len() {
            assert(old(self)@.contains(secret@));
            return;
        }
        assert(!old(self)@.contains(secret@));
        assert(secret@.len() > 0) by {
            if secret@.len() == 0 {
                assert(utf8_len(secret@) == 0);
            }
        }
        self.secrets.push(s);
        assert(self@ =~= old(self)@.push(secret@));
    }

    /// Stops redacting a secret.
    pub fn forget(&mut self, secret: &str)
        requires
            old(self).wf(),
        ensures
            final(self).wf(),
            final(self)@ == forget_effect(old(self)@, secret@),
    {
        let s = String::from_str(secret);
        let i = self.index_of(&s);
        proof {
            lemma_position_of(self@, secret@, i as int);
        }
        if i < self.secrets.len() {
            let _ = self.secrets.remove(i);
            assert(self@ =~= old(self)@.remove(i as int));
        }
    }

    /// Replaces every registered secret in `text` with `[REDACTED]`, the
    /// secrets taken in the order they were registered.
    pub fn redact(&self, text: &str) -> (r: String)
        requires
            self.wf(),
        ensures
            r@ == redact_with(text@, self@),
    {
        let mark = chars_of("[REDACTED]");
        let mut cur = chars_of(text);
        let mut i: usize = 0;
        while i < self.secrets.len()
            invariant
                0 <= i <= self.secrets@.len(),
                self.wf(),
                self@.len() == self.secrets@.len(),
                mark@ == marker(),
                cur@ == redact_with(text@, self@.take(i as int)),
            decreases self.secrets@.len() - i,
        {
            let pat = chars_of(self.secrets[i].as_str());
            assert(pat@ == self@[i as int]);
            assert(self@[i as int].len() > 0);
            cur = replace_all_chars(&cur, &pat, &mark);
            assert(self@.take(i + 1).drop_last() == self@.take(i as int));
            i += 1;
        }
        assert(self@.take(self@.len() as int) == self@);
        string_of_range(&cur, 0, cur.len())
    }

    pub fn is_empty(&self) -> (b: bool)
        ensures
            b == (self@.len() == 0),
    {
        self.secrets.len() == 0
    }
}

proof fn lemma_utf8_len_prefix(s: Seq<char>, k: int)
    requires
        0 <= k < s.len(),
    ensures
        utf8_len(s.take(k + 1)) == utf8_len(s.take(k)) + utf8_width(s[k]),
{
    assert(s.take(k + 1).drop_last() == s.take(k));
}

proof fn lemma_utf8_len_monotone(s: Seq<char>, a: int, b: int)
    requires
        0 <= a <= b <= s.len(),
    ensures
        utf8_len(s.take(a)) <= utf8_len(s.take(b)),
    decreases b - a,
{
    if a < b {
        lemma_utf8_len_prefix(s, b - 1);
        lemma_utf8_len_monotone(s, a, b - 1);
    }
}

/// Whether the UTF-8 encoding of `v` has at least `k` bytes.
pub fn utf8_len_at_least(v: &Vec<char>, k: u64) -> (b: bool)
    requires
        k <= 64,
    ensures
        b == (utf8_len(v@) >= k),
{
    let mut acc: u64 = 0;
    let mut i: usize = 0;
    while i < v.len() && acc < k
        invariant
            0 <= i <= v@.len(),
            k <= 64,
            acc <= 68,
            acc == utf8_len(v@.take(i as int)),
        decreases v@.len() - i,
    {
        proof {
            lemma_utf8_len_prefix(v@, i as int);
        }
        acc = acc + char_utf8_width(v[i]) as u64;
        i += 1;
    }
    proof {
        lemma_utf8_len_monotone(v@, i as int, v@.len() as int);
        assert(v@.take(v@.len() as int) == v@);
    }
    acc >= k
}

/// Whether `pat` occurs in `t` at index `i`.
fn occurs_at_exec(t: &Vec<char>, i: usize, pat: &Vec<char>) -> (b: bool)
    requires
        i <= t@.len(),
    ensures
        b == occurs_at(t@, pat@, i as int),
{
    if pat.len() > t.len() - i {
        return false;
    }
    let tl = t.len();
    let mut k: usize = 0;
    while k < pat.len()
        invariant
            0 <= k <= pat@.len(),
            tl == t@.len(),
            i + pat@.len() <= t@.len(),
            forall|j: int| 0 <= j < k ==> t@[i + j] == pat@[j],
        decreases pat@.len() - k,
    {
        if t[i + k] != pat[k] {
            assert(t@.subrange(i as int, i + pat@.len())[k as int] != pat@[k as int]);
            return false;
        }
        k += 1;
    }
    assert(t@.subrange(i as int, i + pat@.len()) =~= pat@);
    true
}

/// `replace_all` on character vectors.
fn replace_all_chars(t: &Vec<char>, pat: &Vec<char>, rep: &Vec<char>) -> (r: Vec<char>)
    requires
        pat@.len() > 0,
    ensures
        r@ == replace_all(t@, pat@, rep@),
{
    let mut out: Vec<char> = Vec::new();
    let mut i: usize = 0;
    assert(t@.skip(0) == t@);
    assert(out@ + t@ == t@);
    assert(out@ + replace_all(t@, pat@, rep@) == replace_all(t@, pat@, rep@));
    while i < t.len()
        invariant
            0 <= i <= t@.len(),
            pat@.len() > 0,
            replace_all(t@, pat@, rep@) == out@ + replace_all(t@.skip(i as int), pat@, rep@),
        decreases t@.len() - i,
    {
        let ghost s = t@.skip(i as int);
        if occurs_at_exec(t, i, pat) {
            assert(s.take(pat@.len() as int) == t@.subrange(i as int, i + pat@.len()));
            assert(s.skip(pat@.len() as int) == t@.skip(i + pat@.len()));
            let mut k: usize = 0;
            let ghost out0 = out@;
            while k < rep.len()
                invariant
                    0 <= k <= rep@.len(),
                    out@ == out0 + rep@.take(k as int),
                decreases rep@.len() - k,
            {
                out.push(rep[k]);
                assert(rep@.take(k + 1) == rep@.take(k as int).push(rep@[k as int]));
                k += 1;
            }
            assert(rep@.take(rep@.len() as int) == rep@);
            assert(out0 + (rep@ + replace_all(t@.skip(i + pat@.len()), pat@, rep@))
                == out@ + replace_all(t@.skip(i + pat@.len()), pat@, rep@));
            i = i + pat.len();
        } else {
            proof {
                assert(s.skip(1) == t@.skip(i + 1));
                if s.len() < pat@.len() {
                    assert(replace_all(s.skip(1), pat@, rep@) == s.skip(1));
                    assert(s == seq![s[0]] + s.skip(1));
                } else {
                    assert(s.take(pat@.len() as int) != pat@) by {
                        assert(s.take(pat@.len() as int) == t@.subrange(i as int, i + pat@.len()));
                    }
                }
            }
            let ghost out0 = out@;
            out.push(t[i]);
            assert(out0 + (seq![s[0]] + replace_all(s.skip(1), pat@, rep@))
                == out@ + replace_all(t@.skip(i + 1), pat@, rep@));
            i = i + 1;
        }
    }
    assert(t@.skip(t@.len() as int) == Seq::<char>::empty());
    assert(out@ + Seq::<char>::empty() == out@);
    out
}


/// Length of the first piece of `s` when `s` is split after each
/// whitespace character (the whitespace stays with its piece).
pub open spec fn first_piece_len(s: Seq<char>) -> int
    decreases s.len(),
{
    if s.len() == 0 {
        0
    } else if is_ws(s[0]) {
        1
    } else {
        1 + first_piece_len(s.drop_first())
    }
}

/// A piece without its trailing whitespace character.
pub open spec fn trimmed_piece(p: Seq<char>) -> Seq<char> {
    if p.len() > 0 && is_ws(p.last()) {
        p.drop_last()
    } else {
        p
    }
}

/// Number of occurrences of `c` in `s`.
pub open spec fn count_char(s: Seq<char>, c: char) -> int
    decreases s.len(),
{
    if s.len() == 0 {
        0
    } else {
        count_char(s.drop_last(), c) + (if s.last() == c { 1int } else { 0int })
    }
}

/// Shaped like a YouTube stream key: at least 16 bytes, at least three
/// dashes, nothing but ASCII letters, digits and dashes.
pub open spec fn looks_like_youtube_key(t: Seq<char>) -> bool {
    &&& utf8_len(t) >= 16
    &&& count_char(t, '-') >= 3
    &&& forall|i: int| 0 <= i < t.len() ==> is_ascii_alnum(#[trigger] t[i]) || t[i] == '-'
}

/// Shaped like a Twitch stream key: "live_" followed by enough to make
/// more than 20 bytes.
pub open spec fn looks_like_twitch_key(t: Seq<char>) -> bool {
    &&& t.len() >= 5
    &&& t.take(5) == seq!['l', 'i', 'v', 'e', '_']
    &&& utf8_len(t) > 20
}

/// A key-shaped piece becomes the marker, followed by a plain space when
/// the piece ended in whitespace; any other piece is kept as it is.
pub open spec fn redact_piece(p: Seq<char>) -> Seq<char> {
    let t = trimmed_piece(p);
    if looks_like_youtube_key(t) || looks_like_twitch_key(t) {
        marker() + (if p.len() > 0 && is_ws(p.last()) { seq![' '] } else { Seq::<char>::empty() })
    } else {
        p
    }
}

/// `s` with every key-shaped piece redacted.
pub open spec fn redact_patterns(s: Seq<char>) -> Seq<char>
    decreases s.len(),
{
    if s.len() == 0 {
        Seq::empty()
    } else {
        let n = first_piece_len(s);
        if 0 < n <= s.len() {
            redact_piece(s.take(n)) + redact_patterns(s.skip(n))
        } else {
            s
        }
    }
}

proof fn lemma_first_piece_len(s: Seq<char>, j: int)
    requires
        0 <= j <= s.len(),
        forall|k: int| 0 <= k < j ==> !is_ws(#[trigger] s[k]),
        j < s.len() ==> is_ws(s[j]),
    ensures
        first_piece_len(s) == (if j < s.len() { j + 1 } else { j }),
    decreases j,
{
    if j > 0 {
        assert(!is_ws(s[0]));
        lemma_first_piece_len(s.drop_first(), j - 1);
    }
}

/// Characters a YouTube-style key is made of.
pub open spec fn is_key_char(c: char) -> bool {
    is_ascii_alnum(c) || c == '-'
}

proof fn lemma_key_chars_are_ascii(t: Seq<char>)
    requires
        forall|i: int| 0 <= i < t.len() ==> is_key_char(#[trigger] t[i]),
    ensures
        utf8_len(t) == t.len(),
        forall|i: int| 0 <= i < t.len() ==> !is_ws(#[trigger] t[i]),
    decreases t.len(),
{
    if t.len() > 0 {
        assert forall|i: int| 0 <= i < t.drop_last().len() implies is_key_char(#[trigger] t.drop_last()[i]) by {
            assert(t.drop_last()[i] == t[i]);
        }
        lemma_key_chars_are_ascii(t.drop_last());
        assert(is_key_char(t[t.len() - 1]));
    }
    assert forall|i: int| 0 <= i < t.len() implies !is_ws(#[trigger] t[i]) by {
        assert(is_key_char(t[i]));
    }
}

/// A word shaped like a YouTube stream key (at least 16 characters, only
/// ASCII letters, digits and dashes, and three or more dashes, however
/// many) is replaced by the marker: on its own it becomes exactly the
/// marker, and at the start of a text it becomes the marker followed by
/// one space in place of the whitespace that ended it.
pub proof fn law_dashed_keys_are_redacted(key: Seq<char>, w: char, rest: Seq<char>)
    requires
        key.len() >= 16,
        count_char(key, '-') >= 3,
        forall|i: int| 0 <= i < key.len() ==> is_key_char(#[trigger] key[i]),
        is_ws(w),
    ensures
        redact_patterns(key) == marker(),
        redact_patterns(key.push(w) + rest) == marker() + seq![' '] + redact_patterns(rest),
{
    lemma_key_chars_are_ascii(key);
    assert(looks_like_youtube_key(key));
    lemma_first_piece_len(key, key.len() as int);
    assert(key.take(key.len() as int) == key);
    assert(key.skip(key.len() as int) == Seq::<char>::empty());
    assert(!is_ws(key.last()));
    assert(redact_patterns(Seq::<char>::empty()) == Seq::<char>::empty());
    assert(marker() + Seq::<char>::empty() == marker());
    let s = key.push(w) + rest;
    assert forall|k: int| 0 <= k < key.len() implies !is_ws(#[trigger] s[k]) by {
        assert(s[k] == key[k]);
    }
    assert(s[key.len() as int] == w);
    lemma_first_piece_len(s, key.len() as int);
    assert(s.take(key.len() + 1int) == key.push(w));
    assert(s.skip(key.len() + 1int) == rest);
    assert(trimmed_piece(key.push(w)) == key);
}

proof fn lemma_first_piece_prefix(a: Seq<char>, b: Seq<char>)
    requires
        a.len() > 0,
        is_ws(a.last()),
    ensures
        first_piece_len(a + b) == first_piece_len(a),
        1 <= first_piece_len(a) <= a.len(),
    decreases a.len(),
{
    assert((a + b)[0] == a[0]);
    if !is_ws(a[0]) {
        assert((a + b).drop_first() == a.drop_first() + b);
        assert(a.drop_first().last() == a.last());
        lemma_first_piece_prefix(a.drop_first(), b);
    }
}

/// Pattern redaction works word by word: a text that ends in whitespace
/// is redacted the same whatever follows it, and what follows is redacted
/// on its own.
pub proof fn law_pattern_redaction_goes_word_by_word(a: Seq<char>, b: Seq<char>)
    requires
        a.len() > 0,
        is_ws(a.last()),
    ensures
        redact_patterns(a + b) == redact_patterns(a) + redact_patterns(b),
    decreases a.len(),
{
    lemma_first_piece_prefix(a, b);
    let n = first_piece_len(a);
    assert((a + b).take(n) == a.take(n));
    assert((a + b).skip(n) == a.skip(n) + b);
    if n < a.len() {
        let r = a.skip(n);
        assert(r.last() == a.last());
        law_pattern_redaction_goes_word_by_word(r, b);
        assert(redact_piece(a.take(n)) + (redact_patterns(r) + redact_patterns(b))
            == (redact_piece(a.take(n)) + redact_patterns(r)) + redact_patterns(b));
    } else {
        assert(a.skip(n) == Seq::<char>::empty());
        assert(a.skip(n) + b == b);
        assert(redact_patterns(Seq::<char>::empty()) == Seq::<char>::empty());
        assert(redact_piece(a.take(n)) + Seq::<char>::empty() == redact_piece(a.take(n)));
    }
}

fn count_char_exec(v: &Vec<char>, c: char) -> (n: usize)
    ensures
        n == count_char(v@, c),
{
    let mut n: usize = 0;
    let mut i: usize = 0;
    while i < v.len()
        invariant
            0 <= i <= v@.len(),
            n <= i,
            n == count_char(v@.take(i as int), c),
        decreases v@.len() - i,
    {
        assert(v@.take(i + 1).drop_last() == v@.take(i as int));
        if v[i] == c {
            n += 1;
        }
        i += 1;
    }
    assert(v@.take(v@.len() as int) == v@);
    n
}

fn looks_like_key(t: &Vec<char>) -> (b: bool)
    ensures
        b == (looks_like_youtube_key(t@) || looks_like_twitch_key(t@)),
{
    let mut all_key_chars = true;
    let mut i: usize = 0;
    while i < t.len()
        invariant
            0 <= i <= t@.len(),
            all_key_chars == forall|k: int| 0 <= k < i ==> is_ascii_alnum(#[trigger] t@[k]) || t@[k] == '-',
        decreases t@.len() - i,
    {
        if !(is_ascii_alphanumeric(t[i]) || t[i] == '-') {
            all_key_chars = false;
        }
        i += 1;
    }
    let youtube = utf8_len_at_least(t, 16) && count_char_exec(t, '-') >= 3 && all_key_chars;
    let prefix = t.len() >= 5 && t[0] == 'l' && t[1] == 'i' && t[2] == 'v' && t[3] == 'e' && t[4] == '_';
    proof {
        if t@.len() >= 5 {
            if prefix {
                assert(t@.take(5) =~= seq!['l', 'i', 'v', 'e', '_']);
            } else {
                if t@.take(5) == seq!['l', 'i', 'v', 'e', '_'] {
                    assert(t@[0] == t@.take(5)[0]);
                    assert(t@[1] == t@.take(5)[1]);
                    assert(t@[2] == t@.take(5)[2]);
                    assert(t@[3] == t@.take(5)[3]);
                    assert(t@[4] == t@.take(5)[4]);
                }
            }
        }
    }
    let twitch = prefix && utf8_len_at_least(t, 21);
    youtube || twitch
}

/// Redacts every whitespace-separated token shaped like a YouTube or
/// Twitch stream key, whether or not it was registered.
#[verifier::rlimit(40)]
pub fn redact_known_patterns(text: &str) -> (r: String)
    ensures
        r@ == redact_patterns(text@),
{
    let c = chars_of(text);
    let mut out = String::new();
    let mut i: usize = 0;
    assert(c@.skip(0) == c@);
    while i < c.len()
        invariant
            0 <= i <= c@.len(),
            redact_patterns(c@) == out@ + redact_patterns(c@.skip(i as int)),
        decreases c@.len() - i,
    {
        let mut j = i;
        while j < c.len() && !is_whitespace(c[j])
            invariant
                i <= j <= c@.len(),
                forall|k: int| i <= k < j ==> !is_ws(#[trigger] c@[k]),
            decreases c@.len() - j,
        {
            j += 1;
        }
        let ends_ws = j < c.len();
        let end = if ends_ws { j + 1 } else { j };
        let ghost s = c@.skip(i as int);
        let ghost n = end - i;
        proof {
            assert forall|k: int| 0 <= k < j - i implies !is_ws(#[trigger] s[k]) by {
                assert(s[k] == c@[i + k]);
            }
            lemma_first_piece_len(s, j - i);
            assert(s.take(n) == c@.subrange(i as int, end as int));
            assert(s.skip(n) == c@.skip(end as int));
            assert(trimmed_piece(c@.subrange(i as int, end as int)) == c@.subrange(i as int, j as int));
        }
        let mut trimmed: Vec<char> = Vec::new();
        let mut k = i;
        while k < j
            invariant
                i <= k <= j <= c@.len(),
                trimmed@ == c@.subrange(i as int, k as int),
            decreases j - k,
        {
            trimmed.push(c[k]);
            assert(c@.subrange(i as int, k + 1) == c@.subrange(i as int, k as int).push(c@[k as int]));
            k += 1;
        }
        let ghost out0 = out@;
        if looks_like_key(&trimmed) {
            out.append("[REDACTED]");
            if ends_ws {
                push_char(&mut out, ' ');
            }
            assert(out@ == out0 + redact_piece(s.take(n)));
        } else {
            let piece = string_of_range(&c, i, end);
            out.append(piece.as_str());
        }
        assert(out0 + (redact_piece(s.take(n)) + redact_patterns(s.skip(n)))
            == out@ + redact_patterns(c@.skip(end as int)));
        i = end;
    }
    assert(c@.skip(c@.len() as int) == Seq::<char>::empty());
    assert(out@ + Seq::<char>::empty() == out@);
    out
}


proof fn lemma_replace_all_absent(s: Seq<char>, pat: Seq<char>, rep: Seq<char>)
    requires
        pat.len() > 0,
        forall|i: int| !occurs_at(s, pat, i),
    ensures
        replace_all(s, pat, rep) == s,
    decreases s.len(),
{
    if s.len() >= pat.len() {
        assert(!occurs_at(s, pat, 0));
        assert(s.subrange(0, pat.len() as int) == s.take(pat.len() as int));
        let t = s.skip(1);
        assert forall|i: int| !occurs_at(t, pat, i) by {
            if occurs_at(t, pat, i) {
                assert(s.subrange(i + 1, i + 1 + pat.len()) == t.subrange(i, i + pat.len()));
                assert(occurs_at(s, pat, i + 1));
            }
        }
        lemma_replace_all_absent(t, pat, rep);
        assert(s == seq![s[0]] + t);
    }
}

/// Text in which no registered secret occurs passes through
/// redaction unchanged.
pub proof fn law_redaction_keeps_text_without_secrets(text: Seq<char>, secrets: Seq<Seq<char>>)
    requires
        forall|k: int| 0 <= k < secrets.len() ==> #[trigger] secrets[k].len() > 0,
        forall|k: int, i: int| 0 <= k < secrets.len() ==> !#[trigger] occurs_at(text, secrets[k], i),
    ensures
        redact_with(text, secrets) == text,
    decreases secrets.len(),
{
    if secrets.len() > 0 {
        let rest = secrets.drop_last();
        assert forall|k: int, i: int| 0 <= k < rest.len() implies !#[trigger] occurs_at(text, rest[k], i) by {
            assert(rest[k] == secrets[k]);
        }
        law_redaction_keeps_text_without_secrets(text, rest);
        let last = secrets.last();
        assert(last == secrets[secrets.len() - 1]);
        assert forall|i: int| !occurs_at(text, last, i) by {
            assert(!occurs_at(text, secrets[secrets.len() - 1], i));
        }
        lemma_replace_all_absent(text, last, marker());
    }
}

/// Forgetting a secret that was just registered (and was not
/// registered before) gives back the registry as it was.
pub proof fn law_forget_undoes_register(s: Seq<Seq<char>>, x: Seq<char>, byte_len: int)
    requires
        !s.contains(x),
    ensures
        forget_effect(register_effect(s, x, byte_len), x) == s,
{
    if byte_len >= min_secret_bytes() {
        let t = s.push(x);
        assert forall|j: int| 0 <= j < s.len() implies t[j] != x by {
            assert(t[j] == s[j]);
            if s[j] == x {
                assert(s.contains(x));
            }
        }
        lemma_position_of(t, x, s.len() as int);
        assert(t.remove(s.len() as int) =~= s);
    } else {
        lemma_position_of_bounds(s, x);
    }
}

/// Registering the same secret twice has the effect of registering
/// it once.
pub proof fn law_register_idempotent(s: Seq<Seq<char>>, x: Seq<char>, byte_len: int)
    ensures
        register_effect(register_effect(s, x, byte_len), x, byte_len) == register_effect(s, x, byte_len),
{
    if byte_len >= min_secret_bytes() && !s.contains(x) {
        assert(s.push(x)[s.len() as int] == x);
        assert(s.push(x).contains(x));
    }
}

/// `q` never occurs in `s`.
pub open spec fn absent(s: Seq<char>, q: Seq<char>) -> bool {
    forall|i: int| !#[trigger] occurs_at(s, q, i)
}

/// `q` could be read across or inside a marker: it lies inside the
/// marker, contains it, starts with the marker's end, or ends with the
/// marker's start. Such a secret can reappear in redacted text (for
/// instance `D]xyzxyz` in `D]xyzxyzxyzxyz`); any other secret cannot.
pub open spec fn overlaps_marker(q: Seq<char>) -> bool {
    let m = marker();
    ||| exists|i: int| #[trigger] occurs_at(m, q, i)
    ||| exists|i: int| #[trigger] occurs_at(q, m, i)
    ||| exists|k: int| 0 < k < q.len() && k < m.len() && #[trigger] q.take(k) == m.skip(m.len() - k)
    ||| exists|k: int| 0 < k < q.len() && k < m.len() && #[trigger] q.skip(q.len() - k) == m.take(k)
}

/// A prefix of a replacement result is either copied text or reaches a
/// marker.
proof fn lemma_replace_prefix(t: Seq<char>, p: Seq<char>, k: int)
    requires
        p.len() > 0,
        0 <= k <= replace_all(t, p, marker()).len(),
    ensures
        (k <= t.len() && replace_all(t, p, marker()).take(k) == t.take(k)) || exists|j: int|
            0 <= j < k && #[trigger] occurs_at(replace_all(t, p, marker()), marker(), j),
    decreases t.len(),
{
    let m = marker();
    let r = replace_all(t, p, m);
    if t.len() < p.len() {
        assert(r == t);
    } else if t.take(p.len() as int) == p {
        if k > 0 {
            let rest = replace_all(t.skip(p.len() as int), p, m);
            assert(r == m + rest);
            assert(r.subrange(0, m.len() as int) == m);
            assert(occurs_at(r, m, 0));
        } else {
            assert(r.take(0) == t.take(0));
        }
    } else {
        let t1 = t.skip(1);
        let r1 = replace_all(t1, p, m);
        assert(r == seq![t[0]] + r1);
        if k > 0 {
            lemma_replace_prefix(t1, p, k - 1);
            if k - 1 <= t1.len() && r1.take(k - 1) == t1.take(k - 1) {
                assert(r.take(k) =~= seq![t[0]] + r1.take(k - 1));
                assert(t.take(k) =~= seq![t[0]] + t1.take(k - 1));
                assert(r.take(k) == t.take(k));
            } else {
                let j = choose|j: int| 0 <= j < k - 1 && #[trigger] occurs_at(r1, m, j);
                assert(r.subrange(j + 1, j + 1 + m.len()) == r1.subrange(j, j + m.len()));
                assert(occurs_at(r, m, j + 1));
            }
        } else {
            assert(r.take(0) == t.take(0));
        }
    }
}

/// Replacing `p` with the marker removes every occurrence of `p` and
/// creates no occurrence of any `q` that does not overlap the marker.
proof fn lemma_replace_leaves_absent(s: Seq<char>, p: Seq<char>, q: Seq<char>)
    requires
        p.len() > 0,
        q.len() > 0,
        !overlaps_marker(q),
        q == p || absent(s, q),
    ensures
        absent(replace_all(s, p, marker()), q),
    decreases s.len(),
{
    reveal_strlit("[REDACTED]");
    let m = marker();
    let r = replace_all(s, p, m);
    if s.len() < p.len() {
        assert(r == s);
        if q == p {
            assert forall|i: int| !#[trigger] occurs_at(r, q, i) by {
            }
        }
    } else if s.take(p.len() as int) == p {
        let s1 = s.skip(p.len() as int);
        let r1 = replace_all(s1, p, m);
        assert(r == m + r1);
        if q != p {
            assert forall|i: int| !#[trigger] occurs_at(s1, q, i) by {
                if occurs_at(s1, q, i) {
                    assert(s.subrange(i + p.len(), i + p.len() + q.len()) == s1.subrange(i, i + q.len()));
                    assert(occurs_at(s, q, i + p.len()));
                }
            }
        }
        lemma_replace_leaves_absent(s1, p, q);
        assert forall|i: int| !#[trigger] occurs_at(r, q, i) by {
            if occurs_at(r, q, i) {
                if i + q.len() <= m.len() {
                    assert(m.subrange(i, i + q.len()) == r.subrange(i, i + q.len()));
                    assert(occurs_at(m, q, i));
                } else if i < m.len() {
                    let k = m.len() - i;
                    if i == 0 {
                        assert(r.subrange(0, m.len() as int) =~= m);
                        assert(r.subrange(i, i + q.len()) == q);
                        assert(r.subrange(0, q.len() as int).subrange(0, m.len() as int) =~= r.subrange(0, m.len() as int));
                        assert(q.subrange(0, m.len() as int) == m);
                        assert(occurs_at(q, m, 0));
                    } else {
                        assert(q.take(k) == m.skip(m.len() - k));
                    }
                } else {
                    assert(r1.subrange(i - m.len(), i - m.len() + q.len()) == r.subrange(i, i + q.len()));
                    assert(occurs_at(r1, q, i - m.len()));
                }
            }
        }
    } else {
        let s1 = s.skip(1);
        let r1 = replace_all(s1, p, m);
        assert(r == seq![s[0]] + r1);
        if q != p {
            assert forall|i: int| !#[trigger] occurs_at(s1, q, i) by {
                if occurs_at(s1, q, i) {
                    assert(s.subrange(i + 1, i + 1 + q.len()) == s1.subrange(i, i + q.len()));
                    assert(occurs_at(s, q, i + 1));
                }
            }
        }
        lemma_replace_leaves_absent(s1, p, q);
        assert forall|i: int| !#[trigger] occurs_at(r, q, i) by {
            if occurs_at(r, q, i) {
                if i >= 1 {
                    assert(r1.subrange(i - 1, i - 1 + q.len()) == r.subrange(i, i + q.len()));
                    assert(occurs_at(r1, q, i - 1));
                } else {
                    let k = q.len() - 1;
                    lemma_replace_prefix(s1, p, k);
                    if k <= s1.len() && r1.take(k) == s1.take(k) {
                        assert(r.subrange(0, q.len() as int) =~= seq![s[0]] + r1.take(k));
                        assert(s.subrange(0, q.len() as int) =~= seq![s[0]] + s1.take(k));
                        assert(s.subrange(0, q.len() as int) == r.subrange(0, q.len() as int));
                        assert(occurs_at(s, q, 0));
                        if q == p {
                            assert(s.take(p.len() as int) == p);
                        }
                    } else {
                        let j = choose|j: int| 0 <= j < k && #[trigger] occurs_at(r1, m, j);
                        let a = j + 1;
                        assert(r.subrange(a, a + m.len()) == r1.subrange(j, j + m.len()));
                        if a + m.len() <= q.len() {
                            assert(q.subrange(a, a + m.len()) == r.subrange(a, a + m.len()));
                            assert(occurs_at(q, m, a));
                        } else {
                            let kk = q.len() - a;
                            assert(q.skip(q.len() - kk) == m.take(kk));
                        }
                    }
                }
            }
        }
    }
}

/// No registered secret survives redaction, whatever the text, unless it
/// could be read across or inside the `[REDACTED]` marker itself.
pub proof fn law_redaction_removes_every_secret(text: Seq<char>, secrets: Seq<Seq<char>>)
    requires
        forall|k: int| 0 <= k < secrets.len() ==> #[trigger] secrets[k].len() > 0,
        forall|k: int| 0 <= k < secrets.len() ==> !overlaps_marker(#[trigger] secrets[k]),
    ensures
        forall|k: int| 0 <= k < secrets.len() ==> absent(redact_with(text, secrets), #[trigger] secrets[k]),
    decreases secrets.len(),
{
    if secrets.len() > 0 {
        let rest = secrets.drop_last();
        let last = secrets.last();
        assert forall|k: int| 0 <= k < rest.len() implies #[trigger] rest[k].len() > 0 && !overlaps_marker(rest[k]) by {
            assert(rest[k] == secrets[k]);
        }
        law_redaction_removes_every_secret(text, rest);
        let prev = redact_with(text, rest);
        assert(last == secrets[secrets.len() - 1]);
        assert forall|k: int| 0 <= k < secrets.len() implies absent(redact_with(text, secrets), #[trigger] secrets[k]) by {
            if k == secrets.len() - 1 {
                lemma_replace_leaves_absent(prev, last, last);
            } else {
                assert(secrets[k] == rest[k]);
                lemma_replace_leaves_absent(prev, last, secrets[k]);
            }
        }
    }
}

} // verus!
