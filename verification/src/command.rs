//! The command interpreter: a pure, total function from a raw chat message
//! and a sender identity to a typed action.
//!
//! A message is first stripped of link-markup wrapper tokens, then reduced
//! to an allow-listed character set, then trimmed; if what remains starts
//! with the command prefix `'!'`, its first token selects the action.

use vstd::prelude::*;

use crate::text::{
    alphanumeric, char_is_alphanumeric, chars_of, parse_u32_range, parsed_u32, string_from_chars,
};

verus! {

broadcast use vstd::string::group_string_axioms;

/// Identity of the chat user a message came from or a reply goes to.
#[derive(Clone, Copy, Debug, PartialEq, Eq, Structural)]
pub struct UserId {
    pub raw: u16,
}

/// Whether a character survives sanitization: alphanumerics plus a fixed
/// punctuation set.
pub open spec fn allowed_char(c: char) -> bool {
    alphanumeric(c) || c == ' ' || c == '.' || c == '=' || c == '\t' || c == ',' || c == '?' || c
        == '!' || c == ':' || c == '&' || c == '/' || c == '-' || c == '_'
}

fn is_allowed(c: char) -> (r: bool)
    ensures
        r == allowed_char(c),
{
    char_is_alphanumeric(c) || c == ' ' || c == '.' || c == '=' || c == '\t' || c == ',' || c
        == '?' || c == '!' || c == ':' || c == '&' || c == '/' || c == '-' || c == '_'
}

/// Keeps exactly the allow-listed characters of `v`, in order.
fn filter_allowed(v: &Vec<char>) -> (r: Vec<char>)
    ensures
        r@ == v@.filter(|c: char| allowed_char(c)),
{
    let mut r: Vec<char> = Vec::new();
    let n = v.len();
    for i in 0..n
        invariant
            n == v@.len(),
            r@ == v@.take(i as int).filter(|c: char| allowed_char(c)),
    {
        let ghost prefix = v@.take(i as int);
        let c = v[i];
        if is_allowed(c) {
            r.push(c);
        }
        proof {
            reveal(Seq::filter);
            assert(v@.take(i + 1).drop_last() =~= prefix);
            assert(v@.take(i + 1).last() == c);
        }
    }
    proof {
        assert(v@.take(n as int) =~= v@);
    }
    r
}

/// Drops every character outside the allow-listed set (alphanumerics plus
/// a fixed punctuation set) from `s`.
pub fn sanitize(s: &str) -> (r: String)
    ensures
        r@ == s@.filter(|c: char| allowed_char(c)),
{
    let cs = chars_of(s);
    let kept = filter_allowed(&cs);
    string_from_chars(&kept)
}

/// `s` with every occurrence of `p` removed, scanning left to right
/// without overlap, as `str::replace(p, "")` does.
pub open spec fn remove_pat(s: Seq<char>, p: Seq<char>) -> Seq<char>
    decreases s.len(),
{
    if p.len() == 0 || s.len() < p.len() {
        s
    } else if s.take(p.len() as int) == p {
        remove_pat(s.skip(p.len() as int), p)
    } else {
        seq![s[0]] + remove_pat(s.drop_first(), p)
    }
}

/// Whether `v[lo..hi]` equals `p`.
fn range_matches(v: &Vec<char>, lo: usize, hi: usize, p: &Vec<char>) -> (r: bool)
    requires
        lo <= hi <= v@.len(),
    ensures
        r == (v@.subrange(lo as int, hi as int) == p@),
{
    let ghost sub = v@.subrange(lo as int, hi as int);
    if hi - lo != p.len() {
        proof {
            assert(sub.len() != p@.len());
        }
        return false;
    }
    let n = p.len();
    for j in 0..n
        invariant
            lo <= hi <= v@.len(),
            n == p@.len() == hi - lo,
            sub == v@.subrange(lo as int, hi as int),
            forall|k: int| 0 <= k < j ==> sub[k] == p@[k],
    {
        if v[lo + j] != p[j] {
            proof {
                assert(sub[j as int] != p@[j as int]);
            }
            return false;
        }
    }
    proof {
        assert(sub =~= p@);
    }
    true
}

/// Removes every occurrence of the non-empty pattern `p` from `v`.
fn remove_pattern(v: &Vec<char>, p: &Vec<char>) -> (r: Vec<char>)
    requires
        p@.len() > 0,
    ensures
        r@ == remove_pat(v@, p@),
{
    let mut r: Vec<char> = Vec::new();
    let mut i: usize = 0;
    proof {
        assert(v@.skip(0) =~= v@);
        assert(Seq::<char>::empty() + remove_pat(v@, p@) =~= remove_pat(v@, p@));
    }
    while i < v.len()
        invariant
            i <= v@.len(),
            p@.len() > 0,
            remove_pat(v@, p@) == r@ + remove_pat(v@.skip(i as int), p@),
        decreases v@.len() - i,
    {
        let ghost rest = v@.skip(i as int);
        let plen = p.len();
        if plen <= v.len() - i && range_matches(v, i, i + plen, p) {
            proof {
                assert(rest.take(p@.len() as int) =~= v@.subrange(
                    i as int,
                    i + p@.len(),
                ));
                assert(rest.skip(p@.len() as int) =~= v@.skip(i + p@.len()));
            }
            i = i + plen;
        } else {
            proof {
                if rest.len() >= p@.len() {
                    assert(rest.take(p@.len() as int) =~= v@.subrange(
                        i as int,
                        i + p@.len(),
                    ));
                    assert(rest.take(p@.len() as int) != p@);
                    assert(rest[0] == v@[i as int]);
                    assert(rest.drop_first() =~= v@.skip(i + 1));
                    assert((r@ + rest) =~= (r@.push(v@[i as int]) + v@.skip(i + 1)));
                    assert(r@ + (seq![rest[0]] + remove_pat(rest.drop_first(), p@))
                        =~= r@.push(v@[i as int]) + remove_pat(v@.skip(i + 1), p@));
                } else {
                    assert(remove_pat(rest, p@) == rest);
                    assert(rest.drop_first() =~= v@.skip(i + 1));
                    assert(remove_pat(rest.drop_first(), p@) == rest.drop_first());
                    assert(r@ + rest =~= r@.push(v@[i as int]) + rest.drop_first());
                }
            }
            r.push(v[i]);
            i = i + 1;
        }
    }
    proof {
        assert(v@.skip(v@.len() as int) =~= Seq::<char>::empty());
        assert(remove_pat(Seq::<char>::empty(), p@) == Seq::<char>::empty());
        assert(r@ + Seq::<char>::empty() =~= r@);
    }
    r
}

/// The whitespace characters that can survive sanitization.
pub open spec fn is_space_char(c: char) -> bool {
    c == ' ' || c == '\t'
}

/// `s` with leading space characters removed.
pub open spec fn trim_front(s: Seq<char>) -> Seq<char>
    decreases s.len(),
{
    if s.len() > 0 && is_space_char(s[0]) {
        trim_front(s.drop_first())
    } else {
        s
    }
}

/// `s` with trailing space characters removed.
pub open spec fn trim_back(s: Seq<char>) -> Seq<char>
    decreases s.len(),
{
    if s.len() > 0 && is_space_char(s.last()) {
        trim_back(s.drop_last())
    } else {
        s
    }
}

/// `s` with leading and trailing space characters removed.
pub open spec fn trimmed(s: Seq<char>) -> Seq<char> {
    trim_back(trim_front(s))
}

/// Removes leading and trailing space characters.
fn trim_chars(v: &Vec<char>) -> (r: Vec<char>)
    ensures
        r@ == trimmed(v@),
{
    let mut lo: usize = 0;
    proof {
        assert(v@.skip(0) =~= v@);
    }
    while lo < v.len() && (v[lo] == ' ' || v[lo] == '\t')
        invariant
            lo <= v@.len(),
            trim_front(v@) == trim_front(v@.skip(lo as int)),
        decreases v@.len() - lo,
    {
        proof {
            assert(v@.skip(lo as int).drop_first() =~= v@.skip(lo + 1));
        }
        lo = lo + 1;
    }
    proof {
        if lo < v@.len() {
            assert(trim_front(v@) == v@.skip(lo as int));
        } else {
            assert(v@.skip(lo as int) =~= Seq::<char>::empty());
            assert(trim_front(v@) =~= v@.skip(lo as int));
        }
    }
    let mut hi: usize = v.len();
    while hi > lo && (v[hi - 1] == ' ' || v[hi - 1] == '\t')
        invariant
            lo <= hi <= v@.len(),
            trim_front(v@) == v@.skip(lo as int),
            trim_back(v@.skip(lo as int)) == trim_back(v@.subrange(lo as int, hi as int)),
        decreases hi,
    {
        proof {
            let sub = v@.subrange(lo as int, hi as int);
            assert(sub.last() == v@[hi - 1]);
            assert(sub.drop_last() =~= v@.subrange(lo as int, hi - 1));
        }
        hi = hi - 1;
    }
    proof {
        let sub = v@.subrange(lo as int, hi as int);
        if hi > lo {
            assert(trim_back(sub) == sub);
        } else {
            assert(sub =~= Seq::<char>::empty());
            assert(trim_back(sub) =~= sub);
        }
    }
    let mut r: Vec<char> = Vec::new();
    let mut k: usize = lo;
    while k < hi
        invariant
            lo <= k <= hi <= v@.len(),
            r@ =~= v@.subrange(lo as int, k as int),
        decreases hi - k,
    {
        r.push(v[k]);
        proof {
            assert(r@ =~= v@.subrange(lo as int, k + 1));
        }
        k = k + 1;
    }
    proof {
        assert(r@ =~= v@.subrange(lo as int, hi as int));
    }
    r
}

/// Index of the first `' '` in `s`, or `s.len()` if there is none.
pub open spec fn first_space(s: Seq<char>) -> int
    decreases s.len(),
{
    if s.len() == 0 {
        0
    } else if s[0] == ' ' {
        0
    } else {
        1 + first_space(s.drop_first())
    }
}

proof fn lemma_first_space_at(s: Seq<char>, k: int)
    requires
        0 <= k <= s.len(),
        forall|j: int| 0 <= j < k ==> s[j] != ' ',
        k == s.len() || s[k] == ' ',
    ensures
        first_space(s) == k,
    decreases k,
{
    if k == 0 {
        if s.len() > 0 {
            assert(s[0] == ' ');
        }
    } else {
        assert(s[0] != ' ');
        let t = s.drop_first();
        assert(forall|j: int| 0 <= j < k - 1 ==> t[j] == s[j + 1] && t[j] != ' ');
        if k < s.len() {
            assert(t[k - 1] == s[k]);
        }
        lemma_first_space_at(t, k - 1);
    }
}

/// The first space-separated token of `s`.
pub open spec fn head_token(s: Seq<char>) -> Seq<char> {
    s.take(first_space(s))
}

/// Whether `s` has a second space-separated token (possibly empty).
pub open spec fn has_second_token(s: Seq<char>) -> bool {
    first_space(s) < s.len()
}

/// The second space-separated token of `s` (what stands between the first
/// space and the next one).
pub open spec fn second_token(s: Seq<char>) -> Seq<char> {
    let rest = s.skip(first_space(s) + 1);
    rest.take(first_space(rest))
}

/// A typed command, as the supervisor consumes it.
#[derive(Debug)]
pub enum Action {
    /// Play this link now, or queue it at the tail if a track is playing.
    PlayAudio(String, UserId),
    /// Queue this link at the head, to play right after the current track.
    QueueNextAudio(String, UserId),
    Skip,
    Pause,
    Resume,
    Stop,
    /// `modifier` is the requested volume in percent, clamped to 0..=100;
    /// `None` asks for a report of the current volume.
    ChangeVolume { modifier: Option<u8>, user_id: UserId },
    Info(UserId),
    Help(UserId),
    Quit,
    NoAction,
}

/// The mathematical shape of an [`Action`], with links as character
/// sequences.
pub enum ActionModel {
    PlayAudio(Seq<char>, UserId),
    QueueNextAudio(Seq<char>, UserId),
    Skip,
    Pause,
    Resume,
    Stop,
    ChangeVolume { modifier: Option<u8>, user_id: UserId },
    Info(UserId),
    Help(UserId),
    Quit,
    NoAction,
}

impl View for Action {
    type V = ActionModel;

    open spec fn view(&self) -> ActionModel {
        match self {
            Action::PlayAudio(link, u) => ActionModel::PlayAudio(link@, *u),
            Action::QueueNextAudio(link, u) => ActionModel::QueueNextAudio(link@, *u),
            Action::Skip => ActionModel::Skip,
            Action::Pause => ActionModel::Pause,
            Action::Resume => ActionModel::Resume,
            Action::Stop => ActionModel::Stop,
            Action::ChangeVolume { modifier, user_id } => ActionModel::ChangeVolume {
                modifier: *modifier,
                user_id: *user_id,
            },
            Action::Info(u) => ActionModel::Info(*u),
            Action::Help(u) => ActionModel::Help(*u),
            Action::Quit => ActionModel::Quit,
            Action::NoAction => ActionModel::NoAction,
        }
    }
}

/// A message after markup stripping, sanitization and trimming: what the
/// command grammar actually reads.
pub open spec fn cleaned_message(msg: Seq<char>) -> Seq<char> {
    trimmed(
        remove_pat(remove_pat(msg, "[URL]"@), "[/URL]"@).filter(|c: char| allowed_char(c)),
    )
}

/// The action a volume command with argument `arg` yields: the percentage
/// is clamped to 0..=100; a non-numeric argument yields no action.
pub open spec fn volume_action(arg: Seq<char>, uid: UserId) -> ActionModel {
    match parsed_u32(arg) {
        Some(n) => ActionModel::ChangeVolume {
            modifier: Some(if n > 100 {
                100u8
            } else {
                n as u8
            }),
            user_id: uid,
        },
        None => ActionModel::NoAction,
    }
}

/// The action selected by the first token of a cleaned message that starts
/// with the command prefix.
pub open spec fn command_action(t: Seq<char>, uid: UserId) -> ActionModel {
    let cmd = head_token(t);
    let has_arg = has_second_token(t);
    let arg = second_token(t);
    if cmd == "!stop"@ {
        ActionModel::Stop
    } else if cmd == "!pause"@ || cmd == "!p"@ {
        ActionModel::Pause
    } else if cmd == "!continue"@ || cmd == "!c"@ || cmd == "!resume"@ || cmd == "!r"@ {
        ActionModel::Resume
    } else if cmd == "!next"@ || cmd == "!n"@ {
        if has_arg {
            ActionModel::QueueNextAudio(arg, uid)
        } else {
            ActionModel::Skip
        }
    } else if cmd == "!skip"@ || cmd == "!s"@ {
        ActionModel::Skip
    } else if cmd == "!help"@ || cmd == "!h"@ {
        ActionModel::Help(uid)
    } else if cmd == "!info"@ || cmd == "!i"@ {
        ActionModel::Info(uid)
    } else if cmd == "!quit"@ || cmd == "!q"@ {
        ActionModel::Quit
    } else if cmd == "!volume"@ || cmd == "!v"@ {
        if !has_arg {
            ActionModel::ChangeVolume { modifier: None, user_id: uid }
        } else {
            volume_action(arg, uid)
        }
    } else if !has_arg {
        ActionModel::NoAction
    } else if cmd == "!yt"@ || cmd == "!play"@ {
        ActionModel::PlayAudio(arg, uid)
    } else {
        ActionModel::NoAction
    }
}

/// What `parse_command` returns on a raw message: no action unless the
/// cleaned message starts with `'!'`, else the command its first token
/// selects.
pub open spec fn interpret(msg: Seq<char>, uid: UserId) -> ActionModel {
    let t = cleaned_message(msg);
    if t.len() == 0 || t[0] != '!' {
        ActionModel::NoAction
    } else {
        command_action(t, uid)
    }
}

/// Law: a message whose cleaned form does not start with the command
/// prefix yields no action, whoever sent it.
pub proof fn lemma_non_command_is_ignored(msg: Seq<char>, uid: UserId)
    requires
        ({
            let t = cleaned_message(msg);
            t.len() == 0 || t[0] != '!'
        }),
    ensures
        interpret(msg, uid) == ActionModel::NoAction,
{
}

/// Law: a volume command with a numeric argument `v` sets the volume to
/// `v` percent when `v <= 100` and clamps it to `100` percent otherwise.
pub proof fn lemma_volume_modifier_clamped(msg: Seq<char>, uid: UserId, v: u32)
    requires
        ({
            let t = cleaned_message(msg);
            &&& t.len() > 0
            &&& t[0] == '!'
            &&& (head_token(t) == "!volume"@ || head_token(t) == "!v"@)
            &&& has_second_token(t)
            &&& parsed_u32(second_token(t)) == Some(v)
        }),
    ensures
        v <= 100 ==> interpret(msg, uid) == (ActionModel::ChangeVolume {
            modifier: Some(v as u8),
            user_id: uid,
        }),
        v > 100 ==> interpret(msg, uid) == (ActionModel::ChangeVolume {
            modifier: Some(100u8),
            user_id: uid,
        }),
{
    lemma_command_literals_distinct();
}

/// Law: a volume command whose argument does not parse as an unsigned
/// number yields no action.
pub proof fn lemma_volume_non_numeric_ignored(msg: Seq<char>, uid: UserId)
    requires
        ({
            let t = cleaned_message(msg);
            &&& t.len() > 0
            &&& t[0] == '!'
            &&& (head_token(t) == "!volume"@ || head_token(t) == "!v"@)
            &&& has_second_token(t)
            &&& parsed_u32(second_token(t)) is None
        }),
    ensures
        interpret(msg, uid) == ActionModel::NoAction,
{
    lemma_command_literals_distinct();
}

/// The command verbs are pairwise distinct, so the first token selects at
/// most one of them.
proof fn lemma_command_literals_distinct()
    ensures
        "!volume"@ != "!stop"@,
        "!volume"@ != "!pause"@,
        "!volume"@ != "!p"@,
        "!volume"@ != "!continue"@,
        "!volume"@ != "!c"@,
        "!volume"@ != "!resume"@,
        "!volume"@ != "!r"@,
        "!volume"@ != "!next"@,
        "!volume"@ != "!n"@,
        "!volume"@ != "!skip"@,
        "!volume"@ != "!s"@,
        "!volume"@ != "!help"@,
        "!volume"@ != "!h"@,
        "!volume"@ != "!info"@,
        "!volume"@ != "!i"@,
        "!volume"@ != "!quit"@,
        "!volume"@ != "!q"@,
        "!v"@ != "!stop"@,
        "!v"@ != "!pause"@,
        "!v"@ != "!p"@,
        "!v"@ != "!continue"@,
        "!v"@ != "!c"@,
        "!v"@ != "!resume"@,
        "!v"@ != "!r"@,
        "!v"@ != "!next"@,
        "!v"@ != "!n"@,
        "!v"@ != "!skip"@,
        "!v"@ != "!s"@,
        "!v"@ != "!help"@,
        "!v"@ != "!h"@,
        "!v"@ != "!info"@,
        "!v"@ != "!i"@,
        "!v"@ != "!quit"@,
        "!v"@ != "!q"@,
{
    reveal_strlit("!volume");
    reveal_strlit("!v");
    reveal_strlit("!stop");
    reveal_strlit("!pause");
    reveal_strlit("!p");
    reveal_strlit("!continue");
    reveal_strlit("!c");
    reveal_strlit("!resume");
    reveal_strlit("!r");
    reveal_strlit("!next");
    reveal_strlit("!n");
    reveal_strlit("!skip");
    reveal_strlit("!s");
    reveal_strlit("!help");
    reveal_strlit("!h");
    reveal_strlit("!info");
    reveal_strlit("!i");
    reveal_strlit("!quit");
    reveal_strlit("!q");
    assert(("!volume"@).len() == 7);
    assert(("!stop"@).len() == 5);
    assert(("!pause"@).len() == 6);
    assert(("!continue"@).len() == 9);
    assert(("!resume"@).len() == 7);
    assert(("!next"@).len() == 5);
    assert(("!skip"@).len() == 5);
    assert(("!help"@).len() == 5);
    assert(("!info"@).len() == 5);
    assert(("!quit"@).len() == 5);
    assert(("!v"@).len() == 2);
    assert(("!p"@).len() == 2);
    assert(("!c"@).len() == 2);
    assert(("!r"@).len() == 2);
    assert(("!n"@).len() == 2);
    assert(("!s"@).len() == 2);
    assert(("!h"@).len() == 2);
    assert(("!i"@).len() == 2);
    assert(("!q"@).len() == 2);
    assert(("!volume"@)[1] == 'v');
    assert(("!resume"@)[1] == 'r');
    assert(("!v"@)[1] == 'v');
    assert(("!p"@)[1] == 'p');
    assert(("!c"@)[1] == 'c');
    assert(("!r"@)[1] == 'r');
    assert(("!n"@)[1] == 'n');
    assert(("!s"@)[1] == 's');
    assert(("!h"@)[1] == 'h');
    assert(("!i"@)[1] == 'i');
    assert(("!q"@)[1] == 'q');
}

/// Whether `t[0..fs]` equals the characters of `lit`.
fn head_is(t: &Vec<char>, fs: usize, lit: &str) -> (r: bool)
    requires
        fs <= t@.len(),
    ensures
        r == (t@.take(fs as int) == lit@),
{
    let n = lit.unicode_len();
    if n != fs {
        proof {
            assert(t@.take(fs as int).len() == fs);
        }
        return false;
    }
    for j in 0..n
        invariant
            n == lit@.len(),
            n == fs <= t@.len(),
            forall|k: int| 0 <= k < j ==> t@[k] == lit@[k],
    {
        if t[j] != lit.get_char(j) {
            proof {
                assert(t@.take(fs as int)[j as int] != lit@[j as int]);
            }
            return false;
        }
    }
    proof {
        assert(t@.take(fs as int) =~= lit@);
    }
    true
}

/// Copies `v[lo..hi]` into a fresh vector.
fn subvec(v: &Vec<char>, lo: usize, hi: usize) -> (r: Vec<char>)
    requires
        lo <= hi <= v@.len(),
    ensures
        r@ == v@.subrange(lo as int, hi as int),
{
    let mut r: Vec<char> = Vec::new();
    let mut k: usize = lo;
    while k < hi
        invariant
            lo <= k <= hi <= v@.len(),
            r@ =~= v@.subrange(lo as int, k as int),
        decreases hi - k,
    {
        r.push(v[k]);
        proof {
            assert(r@ =~= v@.subrange(lo as int, k + 1));
        }
        k = k + 1;
    }
    r
}

/// Maps a raw chat message and its sender to the action it commands.
/// Total and deterministic: anything that is not a well-formed command
/// yields `Action::NoAction`.
pub fn parse_command(msg: &str, user_id: UserId) -> (a: Action)
    ensures
        a@ == interpret(msg@, user_id),
{
    let cs = chars_of(msg);
    let url_open = chars_of("[URL]");
    let url_close = chars_of("[/URL]");
    proof {
        reveal_strlit("[URL]");
        reveal_strlit("[/URL]");
    }
    let s1 = remove_pattern(&cs, &url_open);
    let s2 = remove_pattern(&s1, &url_close);
    let s3 = filter_allowed(&s2);
    let t = trim_chars(&s3);
    proof {
        assert(t@ == cleaned_message(msg@));
    }
    if t.len() == 0 {
        return Action::NoAction;
    }
    if t[0] != '!' {
        return Action::NoAction;
    }
    let tlen = t.len();
    let mut fs: usize = 0;
    while fs < tlen && t[fs] != ' '
        invariant
            tlen == t@.len(),
            fs <= tlen,
            forall|j: int| 0 <= j < fs ==> t@[j] != ' ',
        decreases tlen - fs,
    {
        fs = fs + 1;
    }
    proof {
        lemma_first_space_at(t@, fs as int);
    }
    let has_arg = fs < tlen;
    let mut ahi: usize = 0;
    let alo: usize = if has_arg {
        fs + 1
    } else {
        0
    };
    if has_arg {
        let ghost rest = t@.skip(fs + 1);
        ahi = alo;
        while ahi < tlen && t[ahi] != ' '
            invariant
                tlen == t@.len(),
                alo == fs + 1 <= tlen,
                rest == t@.skip(fs + 1),
                alo <= ahi <= tlen,
                forall|j: int| alo <= j < ahi ==> t@[j] != ' ',
            decreases tlen - ahi,
        {
            ahi = ahi + 1;
        }
        proof {
            assert(forall|j: int| 0 <= j < ahi - alo ==> rest[j] == t@[j + alo] && rest[j] != ' ');
            if ahi < tlen {
                assert(rest[ahi - alo] == t@[ahi as int]);
            }
            lemma_first_space_at(rest, ahi - alo);
            assert(second_token(t@) =~= t@.subrange(alo as int, ahi as int));
        }
    }
    if head_is(&t, fs, "!stop") {
        return Action::Stop;
    }
    if head_is(&t, fs, "!pause") || head_is(&t, fs, "!p") {
        return Action::Pause;
    }
    if head_is(&t, fs, "!continue") || head_is(&t, fs, "!c") || head_is(&t, fs, "!resume")
        || head_is(&t, fs, "!r") {
        return Action::Resume;
    }
    if head_is(&t, fs, "!next") || head_is(&t, fs, "!n") {
        if has_arg {
            let arg = subvec(&t, alo, ahi);
            return Action::QueueNextAudio(string_from_chars(&arg), user_id);
        }
        return Action::Skip;
    }
    if head_is(&t, fs, "!skip") || head_is(&t, fs, "!s") {
        return Action::Skip;
    }
    if head_is(&t, fs, "!help") || head_is(&t, fs, "!h") {
        return Action::Help(user_id);
    }
    if head_is(&t, fs, "!info") || head_is(&t, fs, "!i") {
        return Action::Info(user_id);
    }
    if head_is(&t, fs, "!quit") || head_is(&t, fs, "!q") {
        return Action::Quit;
    }
    if head_is(&t, fs, "!volume") || head_is(&t, fs, "!v") {
        if !has_arg {
            return Action::ChangeVolume { modifier: None, user_id };
        }
        return match parse_u32_range(&t, alo, ahi) {
            Some(n) => {
                let p: u8 = if n > 100 {
                    100
                } else {
                    n as u8
                };
                Action::ChangeVolume { modifier: Some(p), user_id }
            },
            None => Action::NoAction,
        };
    }
    if !has_arg {
        return Action::NoAction;
    }
    if head_is(&t, fs, "!yt") || head_is(&t, fs, "!play") {
        let arg = subvec(&t, alo, ahi);
        return Action::PlayAudio(string_from_chars(&arg), user_id);
    }
    Action::NoAction
}

} // verus!
