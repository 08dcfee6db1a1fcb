//! Bounded, local diagnostics. Commands, input payloads and credentials are never recorded.
use crate::json::{field_views, lemma_view, parsed_json, text_of, Json, JsonView};
use crate::paths;
use crate::text;
use crate::values::{
    content, contents, copy_list, copy_option, lists_alike, options_alike, Plain,
};
use crate::OutputStream;
use vstd::prelude::*;
use vstd::utf8::encode_utf8;

verus! {

/// One line of the local diagnostics.
#[derive(Debug)]
pub struct ActivityEntry {
    pub id: u64,
    pub timestamp: String,
    pub level: String,
    pub source: String,
    pub message: String,
}

/// The content of a `ActivityEntry`.
#[verifier::ext_equal]
pub struct ActivityEntryView {
    pub id: u64,
    pub timestamp: Seq<char>,
    pub level: Seq<char>,
    pub source: Seq<char>,
    pub message: Seq<char>,
}

impl View for ActivityEntry {
    type V = ActivityEntryView;

    open spec fn view(&self) -> ActivityEntryView {
        ActivityEntryView {
            id: self.id,
            timestamp: self.timestamp@,
            level: self.level@,
            source: self.source@,
            message: self.message@,
        }
    }
}

impl Plain for ActivityEntry {
    fn duplicate(&self) -> (r: Self) {
        ActivityEntry {
            id: self.id,
            timestamp: self.timestamp.clone(),
            level: self.level.clone(),
            source: self.source.clone(),
            message: self.message.clone(),
        }
    }

    fn alike(&self, other: &Self) -> (r: bool) {
        self.id == other.id
            && self.timestamp.alike(&other.timestamp)
            && self.level.alike(&other.level)
            && self.source.alike(&other.source)
            && self.message.alike(&other.message)
    }
}

impl Clone for ActivityEntry {
    fn clone(&self) -> (r: Self)
        ensures
            r@ == self@,
    {
        self.duplicate()
    }
}

/// What the supervisor is doing now.
#[derive(Debug)]
pub struct ActivityStep {
    pub message: String,
    pub started_at: String,
    pub timeout_seconds: Option<u64>,
}

/// The content of a `ActivityStep`.
#[verifier::ext_equal]
pub struct ActivityStepView {
    pub message: Seq<char>,
    pub started_at: Seq<char>,
    pub timeout_seconds: Option<u64>,
}

impl View for ActivityStep {
    type V = ActivityStepView;

    open spec fn view(&self) -> ActivityStepView {
        ActivityStepView {
            message: self.message@,
            started_at: self.started_at@,
            timeout_seconds: self.timeout_seconds,
        }
    }
}

impl Plain for ActivityStep {
    fn duplicate(&self) -> (r: Self) {
        ActivityStep {
            message: self.message.clone(),
            started_at: self.started_at.clone(),
            timeout_seconds: self.timeout_seconds,
        }
    }

    fn alike(&self, other: &Self) -> (r: bool) {
        self.message.alike(&other.message)
            && self.started_at.alike(&other.started_at)
            && self.timeout_seconds == other.timeout_seconds
    }
}

impl Clone for ActivityStep {
    fn clone(&self) -> (r: Self)
        ensures
            r@ == self@,
    {
        self.duplicate()
    }
}

/// The diagnostics as the owner sees them.
#[derive(Debug)]
pub struct ActivitySnapshot {
    pub entries: Vec<ActivityEntry>,
    pub dropped: u64,
    pub step: Option<ActivityStep>,
}

/// The content of a `ActivitySnapshot`.
#[verifier::ext_equal]
pub struct ActivitySnapshotView {
    pub entries: Seq<ActivityEntryView>,
    pub dropped: u64,
    pub step: Option<ActivityStepView>,
}

impl View for ActivitySnapshot {
    type V = ActivitySnapshotView;

    open spec fn view(&self) -> ActivitySnapshotView {
        ActivitySnapshotView {
            entries: contents(self.entries@),
            dropped: self.dropped,
            step: content(self.step),
        }
    }
}

impl Plain for ActivitySnapshot {
    fn duplicate(&self) -> (r: Self) {
        ActivitySnapshot {
            entries: copy_list(self.entries.as_slice()),
            dropped: self.dropped,
            step: copy_option(&self.step),
        }
    }

    fn alike(&self, other: &Self) -> (r: bool) {
        lists_alike(self.entries.as_slice(), other.entries.as_slice())
            && self.dropped == other.dropped
            && options_alike(&self.step, &other.step)
    }
}

impl Clone for ActivitySnapshot {
    fn clone(&self) -> (r: Self)
        ensures
            r@ == self@,
    {
        self.duplicate()
    }
}

/// Where in a terminal escape sequence the text stands.
#[derive(Clone, Copy, Debug, PartialEq, Eq, Structural)]
pub enum Escape {
    /// Outside of any.
    Outside,
    /// Behind the escape character.
    Start,
    /// Within a control sequence.
    Control,
    /// Within an operating system command.
    Command,
    /// Behind an escape character within an operating system command.
    CommandEnd,
}

/// The kept text and the place after one more character.
pub open spec fn sanitize_step(kept: Seq<char>, escape: Escape, c: char) -> (Seq<char>, Escape) {
    match escape {
        Escape::Start => (
            kept,
            if c == '[' {
                Escape::Control
            } else if c == ']' {
                Escape::Command
            } else {
                Escape::Outside
            },
        ),
        Escape::Control => (
            kept,
            if '@' <= c <= '~' {
                Escape::Outside
            } else {
                Escape::Control
            },
        ),
        Escape::Command => (
            kept,
            if c == '\u{7}' {
                Escape::Outside
            } else if c == '\u{1b}' {
                Escape::CommandEnd
            } else {
                Escape::Command
            },
        ),
        Escape::CommandEnd => (
            kept,
            if c == '\\' {
                Escape::Outside
            } else {
                Escape::Command
            },
        ),
        Escape::Outside => if c == '\u{1b}' {
            (kept, Escape::Start)
        } else if !text::is_control(c) || c == '\t' {
            (kept.push(c), Escape::Outside)
        } else {
            (kept, Escape::Outside)
        },
    }
}

/// The kept text and the place after the first `n` characters.
pub open spec fn sanitized_upto(t: Seq<char>, n: int) -> (Seq<char>, Escape)
    decreases n,
{
    if n <= 0 {
        (Seq::empty(), Escape::Outside)
    } else {
        let before = sanitized_upto(t, n - 1);
        sanitize_step(before.0, before.1, t[n - 1])
    }
}

/// The text without terminal escape sequences and control characters; tabs
/// stay.
pub open spec fn sanitized(t: Seq<char>) -> Seq<char> {
    sanitized_upto(t, t.len() as int).0
}

fn sanitize(t: &[char]) -> (r: Vec<char>)
    ensures
        r@ == sanitized(t@),
{
    let mut kept: Vec<char> = Vec::new();
    let mut escape = Escape::Outside;
    for i in 0..t.len()
        invariant
            (kept@, escape) == sanitized_upto(t@, i as int),
    {
        let c = t[i];
        match escape {
            Escape::Start => {
                escape = if c == '[' {
                    Escape::Control
                } else if c == ']' {
                    Escape::Command
                } else {
                    Escape::Outside
                };
            },
            Escape::Control => {
                if '@' <= c && c <= '~' {
                    escape = Escape::Outside;
                }
            },
            Escape::Command => {
                if c == '\u{7}' {
                    escape = Escape::Outside;
                } else if c == '\u{1b}' {
                    escape = Escape::CommandEnd;
                }
            },
            Escape::CommandEnd => {
                escape = if c == '\\' {
                    Escape::Outside
                } else {
                    Escape::Command
                };
            },
            Escape::Outside => {
                if c == '\u{1b}' {
                    escape = Escape::Start;
                } else if !text::control(c) || c == '\t' {
                    kept.push(c);
                }
            },
        }
    }
    kept
}

/// The text with the first `n` secrets covered, one after the other.
pub open spec fn covered(t: Seq<char>, secrets: Seq<Seq<char>>, n: int) -> Seq<char>
    decreases n,
{
    if n <= 0 {
        t
    } else if secrets[n - 1].len() == 0 {
        covered(t, secrets, n - 1)
    } else {
        text::replace_all(covered(t, secrets, n - 1), secrets[n - 1], "[redacted]"@)
    }
}

/// The words that mark a line as sensitive.
pub open spec fn sensitive_words() -> Seq<Seq<char>> {
    seq![
        "authorization"@,
        "password"@,
        "token"@,
        "secret"@,
        "setup_key"@,
        "setup-key"@,
        "setupkey"@,
    ]
}

/// Whether one of the words occurs, in any case of its letters.
pub open spec fn mentions(t: Seq<char>, words: Seq<Seq<char>>) -> bool {
    exists|i: int|
        0 <= i < words.len() && text::occurs(text::ascii_lower(t), #[trigger] words[i])
}

pub open spec fn too_long_text() -> Seq<char> {
    "[Output omitted: line exceeds 4096 bytes]"@
}

pub open spec fn omitted_text() -> Seq<char> {
    "[Sensitive output omitted]"@
}

/// What is shown of a message.
pub open spec fn redacted(message: Seq<char>, secrets: Seq<Seq<char>>) -> Seq<char> {
    if encode_utf8(message).len() > 4096 {
        too_long_text()
    } else {
        let clean = covered(sanitized(message), secrets, secrets.len() as int);
        if mentions(clean, sensitive_words()) {
            omitted_text()
        } else {
            text::trim(clean)
        }
    }
}

fn word_in(lower: &[char], word: &str) -> (r: bool)
    ensures
        r == text::occurs(lower@, word@),
{
    let chars = text::chars_of(word);
    text::contains(lower, chars.as_slice())
}

/// Make a message fit to be shown: no terminal control, no secret, nothing of a
/// line that speaks of a credential.
pub fn redact(message: &str, secrets: &[String]) -> (r: String)
    ensures
        r@ == redacted(message@, contents(secrets@)),
{
    if paths::byte_len(message) > 4096 {
        return "[Output omitted: line exceeds 4096 bytes]".to_owned();
    }
    let chars = text::chars_of(message);
    let mut clean = sanitize(chars.as_slice());
    let cover = text::chars_of("[redacted]");
    let ghost views = contents(secrets@);
    for i in 0..secrets.len()
        invariant
            views == contents(secrets@),
            cover@ == "[redacted]"@,
            clean@ == covered(sanitized(message@), views, i as int),
    {
        assert(views[i as int] == secrets@[i as int]@);
        let secret = text::chars_of(secrets[i].as_str());
        if secret.len() > 0 {
            clean = text::replace(clean.as_slice(), secret.as_slice(), cover.as_slice());
        }
    }
    let lower = text::lowered(clean.as_slice());
    let ghost words = sensitive_words();
    let sensitive = word_in(lower.as_slice(), "authorization") || word_in(
        lower.as_slice(),
        "password",
    ) || word_in(lower.as_slice(), "token") || word_in(lower.as_slice(), "secret") || word_in(
        lower.as_slice(),
        "setup_key",
    ) || word_in(lower.as_slice(), "setup-key") || word_in(lower.as_slice(), "setupkey");
    proof {
        assert(words[0] == "authorization"@ && words[1] == "password"@ && words[2] == "token"@
            && words[3] == "secret"@ && words[4] == "setup_key"@ && words[5] == "setup-key"@
            && words[6] == "setupkey"@);
    }
    if sensitive {
        return "[Sensitive output omitted]".to_owned();
    }
    let kept = text::trimmed(clean.as_slice());
    text::string_of(kept.as_slice())
}

/// A character that may be shown: no control character but the tab.
pub open spec fn is_shown(c: char) -> bool {
    !text::is_control(c) || c == '\t'
}

pub open spec fn all_shown(t: Seq<char>) -> bool {
    forall|i: int| 0 <= i < t.len() ==> is_shown(#[trigger] t[i])
}

proof fn lemma_sanitized_shown(t: Seq<char>, n: int)
    ensures
        all_shown(sanitized_upto(t, n).0),
    decreases n,
{
    if n > 0 {
        lemma_sanitized_shown(t, n - 1);
    }
}

proof fn lemma_replaced_shown(t: Seq<char>, p: Seq<char>, r: Seq<char>, i: int)
    requires
        all_shown(t),
        all_shown(r),
        0 <= i <= t.len(),
    ensures
        all_shown(text::replace_from(t, p, r, i)),
    decreases t.len() - i,
{
    if p.len() == 0 || i + p.len() > t.len() {
        assert(all_shown(t.skip(i)));
    } else if text::occurs_at(t, p, i) {
        lemma_replaced_shown(t, p, r, i + p.len());
    } else {
        lemma_replaced_shown(t, p, r, i + 1);
    }
}

proof fn lemma_covered_shown(t: Seq<char>, secrets: Seq<Seq<char>>, n: int)
    requires
        all_shown(t),
    ensures
        all_shown(covered(t, secrets, n)),
    decreases n,
{
    if n > 0 {
        lemma_covered_shown(t, secrets, n - 1);
        reveal_strlit("[redacted]");
        if secrets[n - 1].len() > 0 {
            lemma_replaced_shown(
                covered(t, secrets, n - 1),
                secrets[n - 1],
                "[redacted]"@,
                0,
            );
        }
    }
}

/// Trimmed text is a piece of the text.
proof fn lemma_trim_is_piece(t: Seq<char>) -> (range: (int, int))
    ensures
        0 <= range.0 <= range.1 <= t.len(),
        text::trim(t) == t.subrange(range.0, range.1),
{
    let a = lemma_trim_start_is_piece(t);
    let b = lemma_trim_end_is_piece(text::trim_start(t));
    assert(t.skip(a).take(b) == t.subrange(a, a + b));
    (a, a + b)
}

proof fn lemma_trim_start_is_piece(t: Seq<char>) -> (a: int)
    ensures
        0 <= a <= t.len(),
        text::trim_start(t) == t.skip(a),
    decreases t.len(),
{
    if t.len() > 0 && text::is_white(t[0]) {
        let a = lemma_trim_start_is_piece(t.skip(1));
        assert(t.skip(1).skip(a) == t.skip(a + 1));
        a + 1
    } else {
        assert(t.skip(0) == t);
        0
    }
}

proof fn lemma_trim_end_is_piece(t: Seq<char>) -> (b: int)
    ensures
        0 <= b <= t.len(),
        text::trim_end(t) == t.take(b),
    decreases t.len(),
{
    if t.len() > 0 && text::is_white(t.last()) {
        let b = lemma_trim_end_is_piece(t.drop_last());
        assert(t.drop_last().take(b) == t.take(b));
        b
    } else {
        assert(t.take(t.len() as int) == t);
        t.len() as int
    }
}

/// What occurs in a piece occurs in the whole.
proof fn lemma_piece(t: Seq<char>, a: int, b: int, p: Seq<char>)
    requires
        0 <= a <= b <= t.len(),
        text::occurs(t.subrange(a, b), p),
    ensures
        text::occurs(t, p),
{
    let k = choose|k: int| text::occurs_at(t.subrange(a, b), p, k);
    assert(t.subrange(a, b).subrange(k, k + p.len()) == t.subrange(a + k, a + k + p.len()));
    assert(text::occurs_at(t, p, a + k));
}

/// A text without a character of the word does not hold the word.
proof fn lemma_no_letter(t: Seq<char>, word: Seq<char>, k: int)
    requires
        0 <= k < word.len(),
        forall|i: int| 0 <= i < t.len() ==> #[trigger] t[i] != word[k],
    ensures
        !text::occurs(t, word),
{
    if text::occurs(t, word) {
        let at = choose|i: int| text::occurs_at(t, word, i);
        assert(t.subrange(at, at + word.len())[k] == t[at + k]);
    }
}

/// Whatever the message and the secrets: what is shown holds no terminal
/// control and no control character but tabs.
pub proof fn shown_messages_are_printable(message: Seq<char>, secrets: Seq<Seq<char>>)
    ensures
        all_shown(redacted(message, secrets)),
{
    reveal_strlit("[Output omitted: line exceeds 4096 bytes]");
    reveal_strlit("[Sensitive output omitted]");
    lemma_sanitized_shown(message, message.len() as int);
    lemma_covered_shown(sanitized(message), secrets, secrets.len() as int);
    let clean = covered(sanitized(message), secrets, secrets.len() as int);
    let range = lemma_trim_is_piece(clean);
    assert(all_shown(clean.subrange(range.0, range.1)));
}

/// Whatever the message and the secrets: what is shown never speaks of a
/// credential by one of the sensitive words, in any case of its letters.
pub proof fn shown_messages_name_no_credential(message: Seq<char>, secrets: Seq<Seq<char>>)
    ensures
        !mentions(redacted(message, secrets), sensitive_words()),
{
    let words = sensitive_words();
    let shown = redacted(message, secrets);
    let lower = text::ascii_lower(shown);
    reveal_strlit("[Output omitted: line exceeds 4096 bytes]");
    reveal_strlit("[Sensitive output omitted]");
    reveal_strlit("authorization");
    reveal_strlit("password");
    reveal_strlit("token");
    reveal_strlit("secret");
    reveal_strlit("setup_key");
    reveal_strlit("setup-key");
    reveal_strlit("setupkey");
    let clean = covered(sanitized(message), secrets, secrets.len() as int);
    if shown == too_long_text() || shown == omitted_text() {
        assert(forall|i: int| 0 <= i < lower.len() ==> #[trigger] lower[i] == text::lower_char(shown[i]));
        assert forall|i: int| 0 <= i < words.len() implies !text::occurs(
            lower,
            #[trigger] words[i],
        ) by {
            assert(words[0][0] == 'a' && words[1][1] == 'a' && words[2][2] == 'k');
            assert(words[3][3] == 'r' && words[4][6] == 'k' && words[5][6] == 'k');
            assert(words[6][5] == 'k');
            assert(forall|k: int|
                0 <= k < lower.len() ==> #[trigger] lower[k] != 'a' && lower[k] != 'k' && lower[k]
                    != 'r');
            if i == 0 {
                lemma_no_letter(lower, words[0], 0);
            } else if i == 1 {
                lemma_no_letter(lower, words[1], 1);
            } else if i == 2 {
                lemma_no_letter(lower, words[2], 2);
            } else if i == 3 {
                lemma_no_letter(lower, words[3], 3);
            } else if i == 4 {
                lemma_no_letter(lower, words[4], 6);
            } else if i == 5 {
                lemma_no_letter(lower, words[5], 6);
            } else {
                lemma_no_letter(lower, words[6], 5);
            }
        }
    } else {
        let range = lemma_trim_is_piece(clean);
        assert(lower == text::ascii_lower(clean).subrange(range.0, range.1));
        assert forall|i: int| 0 <= i < words.len() implies !text::occurs(
            lower,
            #[trigger] words[i],
        ) by {
            if text::occurs(lower, words[i]) {
                lemma_piece(text::ascii_lower(clean), range.0, range.1, words[i]);
            }
        }
    }
}

/// Replaced text that begins without a bracket begins as the text did.
proof fn lemma_replaced_prefix(t: Seq<char>, p: Seq<char>, r: Seq<char>, i: int, q: Seq<char>)
    requires
        0 <= i <= t.len(),
        r.len() > 0,
        r[0] == '[',
        !q.contains('['),
        text::has_prefix(text::replace_from(t, p, r, i), q),
    ensures
        text::occurs_at(t, q, i),
    decreases t.len() - i,
{
    let out = text::replace_from(t, p, r, i);
    if q.len() == 0 {
        assert(t.subrange(i, i) == q);
    } else if p.len() == 0 || i + p.len() > t.len() {
        assert(out == t.skip(i));
        assert(t.skip(i).subrange(0, q.len() as int) == t.subrange(i, i + q.len()));
    } else if text::occurs_at(t, p, i) {
        assert(out[0] == r[0]);
        assert(out.subrange(0, q.len() as int)[0] == q[0]);
    } else {
        let rest = text::replace_from(t, p, r, i + 1);
        let tail = q.skip(1);
        assert(out.subrange(0, q.len() as int)[0] == q[0]);
        assert(rest.subrange(0, tail.len() as int) == tail) by {
            assert forall|k: int| 0 <= k < tail.len() implies rest[k] == tail[k] by {
                assert(out.subrange(0, q.len() as int)[k + 1] == q[k + 1]);
            }
        }
        assert forall|k: int| 0 <= k < tail.len() implies tail[k] != '[' by {
            assert(q[k + 1] != '[');
        }
        lemma_replaced_prefix(t, p, r, i + 1, tail);
        assert(t.subrange(i, i + q.len()) == q) by {
            assert forall|k: int| 0 <= k < q.len() implies t[i + k] == q[k] by {
                if k > 0 {
                    assert(t.subrange(i + 1, i + 1 + tail.len())[k - 1] == tail[k - 1]);
                }
            }
        }
    }
}

/// A secret that can be covered: not empty, without the brackets of the cover
/// and no part of its word.
pub open spec fn coverable(secret: Seq<char>) -> bool {
    secret.len() > 0 && !secret.contains('[') && !secret.contains(']') && !text::occurs(
        "redacted"@,
        secret,
    )
}

proof fn lemma_replaced_hides(t: Seq<char>, p: Seq<char>, i: int, secret: Seq<char>)
    requires
        0 <= i <= t.len(),
        p.len() > 0,
        coverable(secret),
        secret == p || !text::occurs(t.skip(i), secret),
    ensures
        !text::occurs(text::replace_from(t, p, "[redacted]"@, i), secret),
    decreases t.len() - i,
{
    let r = "[redacted]"@;
    reveal_strlit("[redacted]");
    reveal_strlit("redacted");
    let out = text::replace_from(t, p, r, i);
    if i + p.len() > t.len() {
        assert(out == t.skip(i));
        if secret == p && text::occurs(out, secret) {
            let k = choose|k: int| text::occurs_at(out, secret, k);
            assert(false);
        }
    } else if text::occurs_at(t, p, i) {
        let next = i + p.len();
        let rest = text::replace_from(t, p, r, next);
        if secret != p && text::occurs(t.skip(next), secret) {
            let k = choose|k: int| text::occurs_at(t.skip(next), secret, k);
            assert(t.skip(next).subrange(k, k + secret.len()) == t.skip(i).subrange(
                k + p.len(),
                k + p.len() + secret.len(),
            ));
            assert(text::occurs_at(t.skip(i), secret, k + p.len()));
        }
        lemma_replaced_hides(t, p, next, secret);
        if text::occurs(out, secret) {
            let k = choose|k: int| text::occurs_at(out, secret, k);
            assert(out.subrange(k, k + secret.len()) == secret);
            if k >= r.len() {
                assert(rest.subrange(k - r.len(), k - r.len() + secret.len()) == secret) by {
                    assert forall|m: int| 0 <= m < secret.len() implies rest[k - r.len() + m]
                        == secret[m] by {
                        assert(out.subrange(k, k + secret.len())[m] == out[k + m]);
                    }
                }
                assert(text::occurs_at(rest, secret, k - r.len()));
            } else if k == 0 {
                assert(secret[0] == out[0]);
                assert(secret.contains('['));
            } else if k + secret.len() > 9 {
                assert(out.subrange(k, k + secret.len())[9 - k] == out[9]);
                assert(secret[9 - k] == ']');
            } else {
                assert("redacted"@.subrange(k - 1, k - 1 + secret.len()) == secret) by {
                    assert forall|m: int| 0 <= m < secret.len() implies "redacted"@[k - 1 + m]
                        == secret[m] by {
                        assert(out.subrange(k, k + secret.len())[m] == out[k + m]);
                        assert(r[k + m] == "redacted"@[k + m - 1]);
                    }
                }
                assert(text::occurs_at("redacted"@, secret, k - 1));
            }
        }
    } else {
        let rest = text::replace_from(t, p, r, i + 1);
        if secret != p && text::occurs(t.skip(i + 1), secret) {
            let rest_text = t.skip(i + 1);
            let k = choose|k: int| text::occurs_at(rest_text, secret, k);
            assert(t.skip(i + 1).subrange(k, k + secret.len()) == t.skip(i).subrange(
                k + 1,
                k + 1 + secret.len(),
            ));
            assert(text::occurs_at(t.skip(i), secret, k + 1));
        }
        lemma_replaced_hides(t, p, i + 1, secret);
        if text::occurs(out, secret) {
            let k = choose|k: int| text::occurs_at(out, secret, k);
            assert(out.subrange(k, k + secret.len()) == secret);
            if k >= 1 {
                assert(rest.subrange(k - 1, k - 1 + secret.len()) == secret) by {
                    assert forall|m: int| 0 <= m < secret.len() implies rest[k - 1 + m]
                        == secret[m] by {
                        assert(out.subrange(k, k + secret.len())[m] == out[k + m]);
                    }
                }
                assert(text::occurs_at(rest, secret, k - 1));
            } else {
                lemma_replaced_prefix(t, p, r, i, secret);
                if secret != p {
                    assert(t.skip(i).subrange(0, secret.len() as int) == t.subrange(
                        i,
                        i + secret.len(),
                    ));
                    assert(text::occurs_at(t.skip(i), secret, 0));
                }
            }
        }
    }
}

proof fn lemma_covered_hides(t: Seq<char>, secrets: Seq<Seq<char>>, n: int, j: int)
    requires
        0 <= j < n,
        coverable(secrets[j]),
    ensures
        !text::occurs(covered(t, secrets, n), secrets[j]),
    decreases n,
{
    let before = covered(t, secrets, n - 1);
    if j < n - 1 {
        lemma_covered_hides(t, secrets, n - 1, j);
    }
    if secrets[n - 1].len() > 0 {
        assert(before.skip(0) == before);
        lemma_replaced_hides(before, secrets[n - 1], 0, secrets[j]);
    }
}

/// A known secret is never shown: unless the whole line is omitted, no secret
/// that can be covered occurs in what is shown of a message.
pub proof fn known_secrets_are_never_shown(message: Seq<char>, secrets: Seq<Seq<char>>, j: int)
    requires
        0 <= j < secrets.len(),
        coverable(secrets[j]),
    ensures
        redacted(message, secrets) == too_long_text() || redacted(message, secrets)
            == omitted_text() || !text::occurs(redacted(message, secrets), secrets[j]),
{
    let clean = covered(sanitized(message), secrets, secrets.len() as int);
    lemma_covered_hides(sanitized(message), secrets, secrets.len() as int, j);
    let range = lemma_trim_is_piece(clean);
    if text::occurs(text::trim(clean), secrets[j]) {
        lemma_piece(clean, range.0, range.1, secrets[j]);
    }
}

/// A text of which every character may be shown stays as it is.
proof fn lemma_shown_stays(t: Seq<char>, n: int)
    requires
        all_shown(t),
        0 <= n <= t.len(),
    ensures
        sanitized_upto(t, n) == (t.take(n), Escape::Outside),
    decreases n,
{
    if n > 0 {
        lemma_shown_stays(t, n - 1);
        assert(is_shown(t[n - 1]));
        assert(t.take(n - 1).push(t[n - 1]) =~= t.take(n));
    } else {
        assert(t.take(0) =~= Seq::<char>::empty());
    }
}

/// A text that begins and ends with no white space is trimmed already.
proof fn lemma_trimmed_stays(t: Seq<char>)
    requires
        t.len() > 0 ==> !text::is_white(t[0]) && !text::is_white(t.last()),
    ensures
        text::trim(t) == t,
{
}

proof fn lemma_trim_start_begins(t: Seq<char>)
    ensures
        text::trim_start(t).len() > 0 ==> !text::is_white(text::trim_start(t)[0]),
    decreases t.len(),
{
    if t.len() > 0 && text::is_white(t[0]) {
        lemma_trim_start_begins(t.skip(1));
    }
}

proof fn lemma_trim_end_ends(t: Seq<char>)
    ensures
        text::trim_end(t).len() > 0 ==> !text::is_white(text::trim_end(t).last())
            && text::trim_end(t)[0] == t[0],
    decreases t.len(),
{
    if t.len() > 0 && text::is_white(t.last()) {
        lemma_trim_end_ends(t.drop_last());
    }
}

/// What a text takes in bytes is what its pieces take.
proof fn lemma_bytes_add(a: Seq<char>, b: Seq<char>)
    ensures
        encode_utf8(a + b).len() == encode_utf8(a).len() + encode_utf8(b).len(),
    decreases a.len(),
{
    if a.len() == 0 {
        assert(a + b =~= b);
    } else {
        assert((a + b).drop_first() =~= a.drop_first() + b);
        lemma_bytes_add(a.drop_first(), b);
    }
}

proof fn lemma_sanitized_bytes(t: Seq<char>, n: int)
    requires
        0 <= n <= t.len(),
    ensures
        encode_utf8(sanitized_upto(t, n).0).len() <= encode_utf8(t.take(n)).len(),
    decreases n,
{
    if n > 0 {
        lemma_sanitized_bytes(t, n - 1);
        let before = sanitized_upto(t, n - 1).0;
        let one = seq![t[n - 1]];
        assert(t.take(n) =~= t.take(n - 1) + one);
        assert(before.push(t[n - 1]) =~= before + one);
        lemma_bytes_add(t.take(n - 1), one);
        lemma_bytes_add(before, one);
    }
}

proof fn lemma_piece_bytes(t: Seq<char>, a: int, b: int)
    requires
        0 <= a <= b <= t.len(),
    ensures
        encode_utf8(t.subrange(a, b)).len() <= encode_utf8(t).len(),
{
    assert(t =~= t.take(a) + (t.subrange(a, b) + t.skip(b)));
    lemma_bytes_add(t.take(a), t.subrange(a, b) + t.skip(b));
    lemma_bytes_add(t.subrange(a, b), t.skip(b));
}

/// Whatever the message: what is shown of it without secrets takes at most 4096
/// bytes.
pub proof fn shown_messages_are_short(message: Seq<char>)
    ensures
        encode_utf8(redacted(message, Seq::empty())).len() <= 4096,
{
    let shown = redacted(message, Seq::empty());
    reveal_strlit("[Output omitted: line exceeds 4096 bytes]");
    reveal_strlit("[Sensitive output omitted]");
    if shown == too_long_text() || shown == omitted_text() {
        assert(vstd::utf8::is_ascii_chars(shown));
        vstd::utf8::is_ascii_chars_encode_utf8(shown);
    } else {
        let clean = sanitized(message);
        lemma_sanitized_bytes(message, message.len() as int);
        assert(message.take(message.len() as int) =~= message);
        let range = lemma_trim_is_piece(clean);
        lemma_piece_bytes(clean, range.0, range.1);
    }
}

/// Whatever the message and the secrets: what is shown of it is shown as it is.
pub proof fn shown_messages_stay(message: Seq<char>, secrets: Seq<Seq<char>>)
    requires
        encode_utf8(redacted(message, secrets)).len() <= 4096,
    ensures
        redacted(redacted(message, secrets), Seq::empty()) == redacted(message, secrets),
{
    let shown = redacted(message, secrets);
    reveal_strlit("[Output omitted: line exceeds 4096 bytes]");
    reveal_strlit("[Sensitive output omitted]");
    shown_messages_are_printable(message, secrets);
    shown_messages_name_no_credential(message, secrets);
    lemma_shown_stays(shown, shown.len() as int);
    assert(shown.take(shown.len() as int) =~= shown);
    let clean = covered(sanitized(message), secrets, secrets.len() as int);
    lemma_trim_start_begins(clean);
    lemma_trim_end_ends(text::trim_start(clean));
    lemma_trimmed_stays(shown);
}

/// Showing a message twice is showing it once.
pub proof fn showing_twice_is_showing_once(message: Seq<char>)
    ensures
        redacted(redacted(message, Seq::empty()), Seq::empty()) == redacted(message, Seq::empty()),
{
    shown_messages_are_short(message);
    shown_messages_stay(message, Seq::empty());
}

/// The most entries that are kept.
pub const KEPT_ENTRIES: usize = 500;

/// The diagnostics of the running agent: its latest entries, and the step that
/// is under way.
#[derive(Debug)]
pub struct ActivityLog {
    pub entries: Vec<ActivityEntry>,
    pub next: u64,
    pub dropped: u64,
    pub step: Option<ActivityStep>,
}

/// The content of a log.
#[verifier::ext_equal]
pub struct ActivityLogView {
    pub entries: Seq<ActivityEntryView>,
    pub next: u64,
    pub dropped: u64,
    pub step: Option<ActivityStepView>,
}

impl View for ActivityLog {
    type V = ActivityLogView;

    open spec fn view(&self) -> ActivityLogView {
        ActivityLogView {
            entries: contents(self.entries@),
            next: self.next,
            dropped: self.dropped,
            step: content(self.step),
        }
    }
}

/// Entries are bounded in number and numbered without gaps behind the dropped
/// ones. Each shows something of at most 4096 bytes, and none repeats the entry
/// before it.
pub open spec fn are_readable(entries: Seq<ActivityEntryView>, dropped: u64) -> bool {
    &&& entries.len() <= KEPT_ENTRIES
    &&& forall|i: int| 0 <= i < entries.len() ==> (#[trigger] entries[i]).id == dropped + i + 1
    &&& forall|i: int|
        0 <= i < entries.len() ==> (#[trigger] entries[i]).message.len() > 0 && encode_utf8(
            entries[i].message,
        ).len() <= 4096
    &&& forall|i: int, j: int|
        0 <= i && j < entries.len() && j == i + 1 ==> !repeats(
            #[trigger] entries[i],
            #[trigger] entries[j],
        )
}

/// Whether two entries say the same.
pub open spec fn repeats(a: ActivityEntryView, b: ActivityEntryView) -> bool {
    a.level == b.level && a.source == b.source && a.message == b.message
}

/// A log of readable entries that counts them and the dropped ones.
pub open spec fn is_log(log: ActivityLogView) -> bool {
    log.next == log.dropped + log.entries.len() && are_readable(log.entries, log.dropped)
}

/// The log after an entry: a message that shows nothing and a repetition of the
/// latest entry are not recorded.
pub open spec fn recorded(
    log: ActivityLogView,
    level: Seq<char>,
    source: Seq<char>,
    message: Seq<char>,
    now: Seq<char>,
) -> ActivityLogView {
    let shown = redacted(message, Seq::empty());
    if shown.len() == 0 || (log.entries.len() > 0 && log.entries.last().level == level
        && log.entries.last().source == source && log.entries.last().message == shown) {
        log
    } else {
        let entries = log.entries.push(
            ActivityEntryView {
                id: (log.next + 1) as u64,
                timestamp: now,
                level,
                source,
                message: shown,
            },
        );
        if entries.len() > KEPT_ENTRIES {
            ActivityLogView {
                entries: entries.skip(1),
                next: (log.next + 1) as u64,
                dropped: (log.dropped + 1) as u64,
                step: log.step,
            }
        } else {
            ActivityLogView { entries, next: (log.next + 1) as u64, ..log }
        }
    }
}

/// The log with a step begun; beginning the step that is under way changes
/// nothing.
pub open spec fn step_begun(
    log: ActivityLogView,
    message: Seq<char>,
    timeout_seconds: Option<u64>,
    now: Seq<char>,
) -> ActivityLogView {
    if log.step matches Some(step) && step.message == message {
        log
    } else {
        recorded(
            ActivityLogView {
                step: Some(
                    ActivityStepView {
                        message: redacted(message, Seq::empty()),
                        started_at: now,
                        timeout_seconds,
                    },
                ),
                ..log
            },
            "info"@,
            "agent"@,
            message,
            now,
        )
    }
}

impl Default for ActivityLog {
    fn default() -> (r: Self)
        ensures
            is_log(r@),
            r@ == (ActivityLogView { entries: Seq::empty(), next: 0, dropped: 0, step: None }),
    {
        let r = ActivityLog { entries: Vec::new(), next: 0, dropped: 0, step: None };
        assert(r@.entries == Seq::<ActivityEntryView>::empty());
        r
    }
}

impl ActivityLog {
    /// Record a message, shown without secrets.
    pub fn record(&mut self, level: &str, source: &str, message: &str, now: &str)
        requires
            is_log(old(self)@),
            old(self).next < u64::MAX,
        ensures
            is_log(final(self)@),
            final(self)@ == recorded(old(self)@, level@, source@, message@, now@),
            final(self).next <= old(self).next + 1,
    {
        let none: Vec<String> = Vec::new();
        assert(contents(none@) == Seq::<Seq<char>>::empty());
        let shown = redact(message, none.as_slice());
        if shown.as_str().is_empty() {
            return ;
        }
        let count = self.entries.len();
        if count > 0 {
            let last = &self.entries[count - 1];
            assert(self@.entries.last() == last@);
            if text::same(last.level.as_str(), level) && text::same(last.source.as_str(), source)
                && text::same(last.message.as_str(), shown.as_str()) {
                return ;
            }
        }
        let ghost before = self@;
        let entry = ActivityEntry {
            id: self.next + 1,
            timestamp: now.to_owned(),
            level: level.to_owned(),
            source: source.to_owned(),
            message: shown,
        };
        let ghost added = entry@;
        self.next = self.next + 1;
        self.entries.push(entry);
        assert(contents(self.entries@) == before.entries.push(added));
        if self.entries.len() > KEPT_ENTRIES {
            let ghost full = contents(self.entries@);
            self.entries.remove(0);
            assert(contents(self.entries@) == full.skip(1));
            self.dropped = self.dropped + 1;
        }
        assert(self@ =~= recorded(before, level@, source@, message@, now@));
        proof {
            recording_keeps_the_latest(before, level@, source@, message@, now@);
        }
    }

    /// Begin a step and record it; beginning the step that is under way changes
    /// nothing.
    pub fn begin_step(&mut self, message: &str, timeout_seconds: Option<u64>, now: &str)
        requires
            is_log(old(self)@),
            old(self).next < u64::MAX,
        ensures
            is_log(final(self)@),
            final(self)@ == step_begun(old(self)@, message@, timeout_seconds, now@),
            final(self).next <= old(self).next + 1,
    {
        let ghost before = self@;
        let same = match &self.step {
            Some(step) => text::same(step.message.as_str(), message),
            None => false,
        };
        if same {
            return ;
        }
        let none: Vec<String> = Vec::new();
        assert(contents(none@) == Seq::<Seq<char>>::empty());
        let step = ActivityStep {
            message: redact(message, none.as_slice()),
            started_at: now.to_owned(),
            timeout_seconds,
        };
        self.step = Some(step);
        self.record("info", "agent", message, now);
    }

    /// End the step that is under way.
    pub fn finish_step(&mut self)
        ensures
            is_log(old(self)@) ==> is_log(final(self)@),
            final(self)@ == (ActivityLogView { step: None, ..old(self)@ }),
    {
        self.step = None;
    }

    /// The diagnostics as the owner sees them.
    pub fn snapshot(&self) -> (r: ActivitySnapshot)
        ensures
            r@ == (ActivitySnapshotView {
                entries: self@.entries,
                dropped: self@.dropped,
                step: self@.step,
            }),
            is_log(self@) ==> are_readable(r@.entries, r@.dropped),
    {
        ActivitySnapshot {
            entries: copy_list(self.entries.as_slice()),
            dropped: self.dropped,
            step: copy_option(&self.step),
        }
    }

    /// Follow a line of a running command: the worker announces its own steps
    /// on its standard output, any other line is recorded.
    pub fn follow(
        &mut self,
        stream: OutputStream,
        source: &str,
        line: &str,
        secrets: &[String],
        now: &str,
    )
        requires
            is_log(old(self)@),
            old(self).next < u64::MAX,
        ensures
            is_log(final(self)@),
            final(self)@ == followed(
                old(self)@,
                stream,
                source@,
                line@,
                contents(secrets@),
                now@,
            ),
            final(self).next <= old(self).next + 1,
    {
        let message = redact(line, secrets);
        if stream == OutputStream::Stdout {
            let chars = text::chars_of(message.as_str());
            let mark = text::chars_of("NodeHarbor step: ");
            if let Some(rest) = text::strip_prefix(chars.as_slice(), mark.as_slice()) {
                let step = text::string_of(rest.as_slice());
                self.begin_step(step.as_str(), None, now);
                return ;
            }
        }
        self.record("info", source, message.as_str(), now);
    }

    /// Record how a command ended. The step is over; what the command wrote to
    /// its standard error is shown without secrets.
    pub fn conclude(
        &mut self,
        step: &str,
        source: &str,
        success: bool,
        stderr: &str,
        secrets: &[String],
        now: &str,
    ) -> (r: String)
        requires
            is_log(old(self)@),
            old(self).next < u64::MAX,
        ensures
            is_log(final(self)@),
            r@ == redacted(stderr@, contents(secrets@)),
            final(self)@ == concluded(old(self)@, step@, source@, success, r@, now@),
            final(self).next <= old(self).next + 1,
    {
        let shown = redact(stderr, secrets);
        self.finish_step();
        if success {
            let message = text::join2(step, ": completed");
            self.record("info", "agent", message.as_str(), now);
        } else {
            let message = text::join3(step, " failed: ", shown.as_str());
            self.record("error", source, message.as_str(), now);
        }
        shown
    }

    /// Record that a command could not be run to its end.
    pub fn conclude_error(&mut self, step: &str, error: &str, secrets: &[String], now: &str) -> (r:
        String)
        requires
            is_log(old(self)@),
            old(self).next < u64::MAX,
        ensures
            is_log(final(self)@),
            r@ == redacted(error@, contents(secrets@)),
            final(self)@ == recorded(
                ActivityLogView { step: None, ..old(self)@ },
                "error"@,
                "agent"@,
                step@ + " failed: "@ + r@,
                now@,
            ),
            final(self).next <= old(self).next + 1,
    {
        let shown = redact(error, secrets);
        self.finish_step();
        let message = text::join3(step, " failed: ", shown.as_str());
        self.record("error", "agent", message.as_str(), now);
        shown
    }
}

/// The log after a line of a running command.
pub open spec fn followed(
    log: ActivityLogView,
    stream: OutputStream,
    source: Seq<char>,
    line: Seq<char>,
    secrets: Seq<Seq<char>>,
    now: Seq<char>,
) -> ActivityLogView {
    let message = redacted(line, secrets);
    let mark = "NodeHarbor step: "@;
    if stream == OutputStream::Stdout && text::has_prefix(message, mark) {
        step_begun(log, message.skip(mark.len() as int), None, now)
    } else {
        recorded(log, "info"@, source, message, now)
    }
}

/// The log after a command that ran to its end.
pub open spec fn concluded(
    log: ActivityLogView,
    step: Seq<char>,
    source: Seq<char>,
    success: bool,
    shown: Seq<char>,
    now: Seq<char>,
) -> ActivityLogView {
    let over = ActivityLogView { step: None, ..log };
    if success {
        recorded(over, "info"@, "agent"@, step + ": completed"@, now)
    } else {
        recorded(over, "error"@, source, step + " failed: "@ + shown, now)
    }
}

/// Recording keeps a log a log, never more than the kept number of entries, and
/// only the oldest entry ever leaves.
pub proof fn recording_keeps_the_latest(
    log: ActivityLogView,
    level: Seq<char>,
    source: Seq<char>,
    message: Seq<char>,
    now: Seq<char>,
)
    requires
        is_log(log),
        log.next < u64::MAX,
    ensures
        is_log(recorded(log, level, source, message, now)),
        ({
            let after = recorded(log, level, source, message, now);
            after != log ==> after.entries.last().message == redacted(message, Seq::empty())
                && after.entries.last().id == log.next + 1 && forall|i: int|
                0 <= i < log.entries.len() && log.entries[i].id > after.dropped
                    ==> after.entries.contains(#[trigger] log.entries[i])
        }),
{
    let after = recorded(log, level, source, message, now);
    shown_messages_are_short(message);
    if after != log {
        let full = log.entries.push(after.entries.last());
        assert(are_readable(after.entries, after.dropped)) by {
            let k: int = after.dropped - log.dropped;
            assert(after.entries =~= full.skip(k));
            assert forall|i: int, j: int|
                0 <= i && j < after.entries.len() && j == i + 1 implies !repeats(
                #[trigger] after.entries[i],
                #[trigger] after.entries[j],
            ) by {
                assert(after.entries[i] == full[i + k] && after.entries[j] == full[j + k]);
                assert(full[i + k] == log.entries[i + k]);
                if j + k < log.entries.len() {
                    assert(full[j + k] == log.entries[j + k]);
                }
            }
            assert forall|i: int| 0 <= i < after.entries.len() implies (#[trigger] after.entries[i]).message.len()
                > 0 && encode_utf8(after.entries[i].message).len() <= 4096 by {
                assert(after.entries[i] == full[i + k]);
                if i + k < log.entries.len() {
                    assert(full[i + k] == log.entries[i + k]);
                }
            }
        }
        assert forall|i: int|
            0 <= i < log.entries.len() && log.entries[i].id
                > after.dropped implies after.entries.contains(#[trigger] log.entries[i]) by {
            if after.dropped == log.dropped {
                assert(after.entries[i] == log.entries[i]);
            } else {
                assert(after.entries[i - 1] == log.entries[i]);
            }
        }
    }
}

/// What the owner sees of a command that is run for the worker; nothing for one
/// that is not shown.
pub open spec fn step_of(args: Seq<Seq<char>>) -> Option<Seq<char>> {
    if args.len() == 0 {
        None
    } else if args[0] == "launch"@ {
        Some("Creating Ubuntu VM"@)
    } else if args[0] == "start"@ {
        Some("Starting Ubuntu VM"@)
    } else if args[0] == "stop"@ {
        Some("Stopping Ubuntu VM"@)
    } else if args[0] == "delete"@ {
        Some("Removing the stopped worker VM"@)
    } else if args[0] == "set"@ {
        Some("Applying worker resource limits"@)
    } else if args[0] == "exec"@ && args.contains(
        "/usr/local/lib/nodeharbor/configure_worker.py"@,
    ) {
        Some("Configuring the private network and Kubernetes"@)
    } else if args[0] == "exec"@ && args.contains("cloud-init"@) {
        Some("Waiting for Ubuntu initialization"@)
    } else {
        None
    }
}

/// What the owner sees of a command that is run for the worker.
pub fn command_step(args: &[String]) -> (r: Option<&'static str>)
    ensures
        match r {
            Some(step) => step_of(contents(args@)) == Some(step@),
            None => step_of(contents(args@)) is None,
        },
{
    if args.len() == 0 {
        return None;
    }
    assert(contents(args@)[0] == args@[0]@);
    let first = args[0].as_str();
    if text::same(first, "launch") {
        Some("Creating Ubuntu VM")
    } else if text::same(first, "start") {
        Some("Starting Ubuntu VM")
    } else if text::same(first, "stop") {
        Some("Stopping Ubuntu VM")
    } else if text::same(first, "delete") {
        Some("Removing the stopped worker VM")
    } else if text::same(first, "set") {
        Some("Applying worker resource limits")
    } else if text::same(first, "exec") && text::holds(
        args,
        "/usr/local/lib/nodeharbor/configure_worker.py",
    ) {
        Some("Configuring the private network and Kubernetes")
    } else if text::same(first, "exec") && text::holds(args, "cloud-init") {
        Some("Waiting for Ubuntu initialization")
    } else {
        None
    }
}

/// Who speaks in the output of a command.
pub fn command_source(args: &[String]) -> (r: &'static str)
    ensures
        r@ == (if contents(args@).len() > 0 && contents(args@)[0] == "exec"@ {
            "worker"@
        } else {
            "multipass"@
        }),
{
    if args.len() > 0 {
        assert(contents(args@)[0] == args@[0]@);
        if text::same(args[0].as_str(), "exec") {
            return "worker";
        }
    }
    "multipass"
}

/// The words that mark a field of a payload as a secret.
pub open spec fn secret_words() -> Seq<Seq<char>> {
    seq!["token"@, "secret"@, "key"@, "password"@, "code"@]
}

/// The secrets that a payload holds: the texts of marked fields, and those
/// within the others.
pub open spec fn secrets_in(j: JsonView) -> Seq<Seq<char>>
    decreases j, 0nat,
{
    match j {
        JsonView::Object(fields) => secrets_upto(fields, fields.len()),
        _ => Seq::empty(),
    }
}

pub open spec fn secrets_upto(fields: Seq<(Seq<char>, JsonView)>, n: nat) -> Seq<Seq<char>>
    decreases fields, n,
{
    if n == 0 || n > fields.len() {
        Seq::empty()
    } else {
        let before = secrets_upto(fields, (n - 1) as nat);
        let field = fields[n - 1];
        if mentions(field.0, secret_words()) {
            match text_of(field.1) {
                Some(t) => before.push(t),
                None => before,
            }
        } else {
            before + secrets_in(field.1)
        }
    }
}

fn marks_secret(key: &str) -> (r: bool)
    ensures
        r == mentions(key@, secret_words()),
{
    let chars = text::chars_of(key);
    let lower = text::lowered(chars.as_slice());
    let ghost words = secret_words();
    proof {
        assert(words[0] == "token"@ && words[1] == "secret"@ && words[2] == "key"@ && words[3]
            == "password"@ && words[4] == "code"@);
    }
    word_in(lower.as_slice(), "token") || word_in(lower.as_slice(), "secret") || word_in(
        lower.as_slice(),
        "key",
    ) || word_in(lower.as_slice(), "password") || word_in(lower.as_slice(), "code")
}

/// The secrets that a payload holds.
pub fn collect_secrets(j: &Json) -> (r: Vec<String>)
    ensures
        contents(r@) == secrets_in(j@),
    decreases j,
{
    let mut r: Vec<String> = Vec::new();
    proof {
        lemma_view(*j);
    }
    assert(contents(r@) == Seq::<Seq<char>>::empty());
    match j {
        Json::Object(fields) => {
            let ghost views = field_views(fields@);
            for i in 0..fields.len()
                invariant
                    *j == Json::Object(*fields),
                    views == field_views(fields@),
                    contents(r@) == secrets_upto(views, i as nat),
            {
                assert(views[i as int] == (fields@[i as int].0@, fields@[i as int].1@));
                assert(decreases_to!(*j => j->Object_0@[i as int].1));
                let ghost before = contents(r@);
                if marks_secret(fields[i].0.as_str()) {
                    if let Some(t) = fields[i].1.as_text() {
                        r.push(t.to_owned());
                        assert(contents(r@) == before.push(t@));
                    }
                } else {
                    let mut inner = collect_secrets(&fields[i].1);
                    let ghost more = contents(inner@);
                    r.append(&mut inner);
                    assert(contents(r@) == before + more);
                }
            }
            r
        },
        _ => r,
    }
}

/// The secrets that the input of a command holds; none where it is no JSON
/// document.
pub fn input_secrets(input: Option<&[u8]>) -> (r: Vec<String>)
    ensures
        contents(r@) == (match input {
            Some(bytes) => match parsed_json(bytes@) {
                Ok(j) => secrets_in(j),
                Err(_) => Seq::empty(),
            },
            None => Seq::empty(),
        }),
{
    let none: Vec<String> = Vec::new();
    assert(contents(none@) == Seq::<Seq<char>>::empty());
    match input {
        Some(bytes) => match crate::json::parse(bytes) {
            Ok(j) => collect_secrets(&j),
            Err(_) => none,
        },
        None => none,
    }
}

} // verus!
