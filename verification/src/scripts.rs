//! The terminal scripts that open an official login flow: quoting of each
//! argument for `cmd.exe`, for a POSIX shell and for an AppleScript string
//! literal, and the scripts built from them.
use vstd::prelude::*;

use crate::commands::{ExternalFlowCommand, FlowModel};
use crate::text::{chars_of, join, push_char, string_of, views};

verus! {

/// A character that needs no quoting on a command line.
pub open spec fn is_plain_arg_char(c: char) -> bool {
    ||| 'a' <= c <= 'z'
    ||| 'A' <= c <= 'Z'
    ||| '0' <= c <= '9'
    ||| c == '.'
    ||| c == '-'
    ||| c == '_'
    ||| c == '/'
    ||| c == ':'
}

/// Every character of `s` needs no quoting.
pub open spec fn is_plain_arg(s: Seq<char>) -> bool {
    forall|i: int| 0 <= i < s.len() ==> is_plain_arg_char(#[trigger] s[i])
}

/// `s` with each `c` replaced by `by` (`str::replace` with a `char` pattern).
pub open spec fn replace_char(s: Seq<char>, c: char, by: Seq<char>) -> Seq<char>
    decreases s.len(),
{
    if s.len() == 0 {
        Seq::empty()
    } else {
        replace_char(s.drop_last(), c, by) + if s.last() == c {
            by
        } else {
            seq![s.last()]
        }
    }
}

/// An argument as `cmd.exe` is given it: as it is when plain, else in double
/// quotes with each double quote escaped by a backslash.
pub open spec fn cmd_quoted(value: Seq<char>) -> Seq<char> {
    if is_plain_arg(value) {
        value
    } else {
        seq!['"'] + replace_char(value, '"', seq!['\\', '"']) + seq!['"']
    }
}

/// An argument as a POSIX shell is given it: as it is when plain, else in
/// single quotes with each single quote written as `'\''`.
pub open spec fn sh_quoted(value: Seq<char>) -> Seq<char> {
    if is_plain_arg(value) {
        value
    } else {
        seq!['\''] + replace_char(value, '\'', seq!['\'', '\\', '\'', '\'']) + seq!['\'']
    }
}

/// A text as an AppleScript string literal: backslashes and double quotes
/// escaped, in double quotes.
pub open spec fn applescript_quoted(value: Seq<char>) -> Seq<char> {
    seq!['"'] + replace_char(replace_char(value, '\\', seq!['\\', '\\']), '"', seq!['\\', '"'])
        + seq!['"']
}

fn is_plain_arg_char_exec(c: char) -> (b: bool)
    ensures
        b == is_plain_arg_char(c),
{
    ('a' <= c && c <= 'z') || ('A' <= c && c <= 'Z') || ('0' <= c && c <= '9') || c == '.' || c
        == '-' || c == '_' || c == '/' || c == ':'
}

fn is_plain_arg_exec(v: &Vec<char>) -> (b: bool)
    ensures
        b == is_plain_arg(v@),
{
    let n = v.len();
    let mut i: usize = 0;
    while i < n
        invariant
            n == v@.len(),
            i <= n,
            forall|k: int| 0 <= k < i ==> is_plain_arg_char(#[trigger] v@[k]),
        decreases n - i,
    {
        if !is_plain_arg_char_exec(v[i]) {
            return false;
        }
        i += 1;
    }
    true
}

/// Appends `v` to `out` with each `c` replaced by `by`.
fn push_replaced(out: &mut Vec<char>, v: &Vec<char>, c: char, by: &Vec<char>)
    ensures
        final(out)@ == old(out)@ + replace_char(v@, c, by@),
{
    let ghost start = out@;
    let n = v.len();
    let mut i: usize = 0;
    assert(v@.take(0) =~= Seq::<char>::empty());
    assert(start + replace_char(Seq::<char>::empty(), c, by@) =~= start);
    while i < n
        invariant
            n == v@.len(),
            i <= n,
            out@ == start + replace_char(v@.take(i as int), c, by@),
        decreases n - i,
    {
        let ghost before = out@;
        if v[i] == c {
            let m = by.len();
            let mut k: usize = 0;
            while k < m
                invariant
                    m == by@.len(),
                    k <= m,
                    out@ == before + by@.take(k as int),
                decreases m - k,
            {
                out.push(by[k]);
                k += 1;
                assert(out@ =~= before + by@.take(k as int));
            }
            assert(by@.take(m as int) =~= by@);
        } else {
            out.push(v[i]);
        }
        proof {
            let t = v@.take(i + 1);
            assert(t.drop_last() =~= v@.take(i as int));
            assert(t.last() == v@[i as int]);
            if v@[i as int] == c {
                assert(out@ =~= start + replace_char(t, c, by@));
            } else {
                assert(out@ =~= start + replace_char(t, c, by@));
            }
        }
        i += 1;
    }
    assert(v@.take(n as int) =~= v@);
}

/// One argument quoted for `cmd.exe`.
pub fn windows_cmd_arg(value: &str) -> (r: String)
    ensures
        r@ == cmd_quoted(value@),
{
    let v = chars_of(value);
    if is_plain_arg_exec(&v) {
        return value.to_owned();
    }
    let mut out: Vec<char> = Vec::new();
    out.push('"');
    let by = vec!['\\', '"'];
    push_replaced(&mut out, &v, '"', &by);
    out.push('"');
    assert(out@ =~= cmd_quoted(value@));
    string_of(&out)
}

/// One argument quoted for a POSIX shell.
pub fn posix_shell_arg(value: &str) -> (r: String)
    ensures
        r@ == sh_quoted(value@),
{
    let v = chars_of(value);
    if is_plain_arg_exec(&v) {
        return value.to_owned();
    }
    let mut out: Vec<char> = Vec::new();
    out.push('\'');
    let by = vec!['\'', '\\', '\'', '\''];
    push_replaced(&mut out, &v, '\'', &by);
    out.push('\'');
    assert(out@ =~= sh_quoted(value@));
    string_of(&out)
}

/// A text as an AppleScript string literal.
pub fn applescript_string(value: &str) -> (r: String)
    ensures
        r@ == applescript_quoted(value@),
{
    let v = chars_of(value);
    let mut once: Vec<char> = Vec::new();
    let by_backslash = vec!['\\', '\\'];
    push_replaced(&mut once, &v, '\\', &by_backslash);
    assert(once@ =~= replace_char(v@, '\\', seq!['\\', '\\']));
    let mut out: Vec<char> = Vec::new();
    out.push('"');
    let by_quote = vec!['\\', '"'];
    push_replaced(&mut out, &once, '"', &by_quote);
    out.push('"');
    assert(out@ =~= applescript_quoted(value@));
    string_of(&out)
}

/// The quoted words of a command line, joined by spaces.
pub open spec fn quoted_line(words: Seq<Seq<char>>, quote: spec_fn(Seq<char>) -> Seq<char>) -> Seq<char> {
    join(words.map_values(quote), " "@)
}

/// The program and its arguments, each quoted for `cmd.exe`.
pub fn windows_command_line(program: &str, args: &Vec<&str>) -> (r: String)
    ensures
        r@ == quoted_line(seq![program@] + views(args@), |w: Seq<char>| cmd_quoted(w)),
{
    let mut r = windows_cmd_arg(program);
    let n = args.len();
    let mut i: usize = 0;
    let ghost quote = |w: Seq<char>| cmd_quoted(w);
    proof {
        let words = (seq![program@] + views(args@)).take(1);
        assert(words.map_values(quote) =~= seq![cmd_quoted(program@)]);
    }
    while i < n
        invariant
            n == args@.len(),
            i <= n,
            quote == (|w: Seq<char>| cmd_quoted(w)),
            r@ == join((seq![program@] + views(args@)).take(i + 1).map_values(quote), " "@),
        decreases n - i,
    {
        let ghost before = (seq![program@] + views(args@)).take(i + 1).map_values(quote);
        r.append(" ");
        let a = windows_cmd_arg(args[i]);
        r.append(a.as_str());
        proof {
            let after = (seq![program@] + views(args@)).take(i + 2).map_values(quote);
            assert(after.drop_last() =~= before);
            assert(after.last() == cmd_quoted(args@[i as int]@));
        }
        i += 1;
    }
    assert((seq![program@] + views(args@)).take(n + 1) =~= seq![program@] + views(args@));
    r
}

/// The program and its arguments, each quoted for a POSIX shell.
pub fn posix_command_line(program: &str, args: &Vec<&str>) -> (r: String)
    ensures
        r@ == quoted_line(seq![program@] + views(args@), |w: Seq<char>| sh_quoted(w)),
{
    let mut r = posix_shell_arg(program);
    let n = args.len();
    let mut i: usize = 0;
    let ghost quote = |w: Seq<char>| sh_quoted(w);
    proof {
        let words = (seq![program@] + views(args@)).take(1);
        assert(words.map_values(quote) =~= seq![sh_quoted(program@)]);
    }
    while i < n
        invariant
            n == args@.len(),
            i <= n,
            quote == (|w: Seq<char>| sh_quoted(w)),
            r@ == join((seq![program@] + views(args@)).take(i + 1).map_values(quote), " "@),
        decreases n - i,
    {
        let ghost before = (seq![program@] + views(args@)).take(i + 1).map_values(quote);
        r.append(" ");
        let a = posix_shell_arg(args[i]);
        r.append(a.as_str());
        proof {
            let after = (seq![program@] + views(args@)).take(i + 2).map_values(quote);
            assert(after.drop_last() =~= before);
            assert(after.last() == sh_quoted(args@[i as int]@));
        }
        i += 1;
    }
    assert((seq![program@] + views(args@)).take(n + 1) =~= seq![program@] + views(args@));
    r
}

/// The `cmd.exe` script that runs a login flow and then its check, keeping
/// the window open.
pub open spec fn windows_flow_script(f: FlowModel) -> Seq<char> {
    "echo 위드지니 셋업 - "@ + f.title_ko
        + " & echo. & echo 브라우저 로그인/코드 확인을 완료해 주세요. & echo 이 창은 자동으로 닫히지 않습니다. & echo. & "@
        + quoted_line(seq![f.program] + f.args, |w: Seq<char>| cmd_quoted(w))
        + " & echo. & echo 로그인 명령이 끝났습니다. 검증 결과: & "@ + quoted_line(
        seq![f.verify_program] + f.verify_args,
        |w: Seq<char>| cmd_quoted(w),
    ) + " & echo. & echo 완료 후 앱으로 돌아가 '안전 진단 시작'을 다시 눌러 주세요. & pause"@
}

/// The shell script that runs a login flow and then its check in Terminal.
pub open spec fn macos_flow_script(f: FlowModel) -> Seq<char> {
    "echo '위드지니 셋업 - "@ + f.title_ko
        + "'; echo; echo '브라우저 로그인/코드 확인을 완료해 주세요.'; "@ + quoted_line(
        seq![f.program] + f.args,
        |w: Seq<char>| sh_quoted(w),
    ) + "; echo; echo '로그인 명령이 끝났습니다. 검증 결과:'; "@ + quoted_line(
        seq![f.verify_program] + f.verify_args,
        |w: Seq<char>| sh_quoted(w),
    ) + "; echo; echo \"완료 후 앱으로 돌아가 '안전 진단 시작'을 다시 눌러 주세요.\""@
}

/// The `cmd.exe` script for the login flow `flow`.
pub fn windows_external_flow_script(flow: &ExternalFlowCommand) -> (r: String)
    ensures
        r@ == windows_flow_script(flow@),
{
    let mut r = "echo 위드지니 셋업 - ".to_owned();
    r.append(flow.title_ko);
    r.append(
        " & echo. & echo 브라우저 로그인/코드 확인을 완료해 주세요. & echo 이 창은 자동으로 닫히지 않습니다. & echo. & ",
    );
    let login = windows_command_line(flow.program, &flow.args);
    r.append(login.as_str());
    r.append(" & echo. & echo 로그인 명령이 끝났습니다. 검증 결과: & ");
    let check = windows_command_line(flow.verify_program, &flow.verify_args);
    r.append(check.as_str());
    r.append(" & echo. & echo 완료 후 앱으로 돌아가 '안전 진단 시작'을 다시 눌러 주세요. & pause");
    r
}

/// The shell script for the login flow `flow`.
pub fn macos_external_flow_script(flow: &ExternalFlowCommand) -> (r: String)
    ensures
        r@ == macos_flow_script(flow@),
{
    let mut r = "echo '위드지니 셋업 - ".to_owned();
    r.append(flow.title_ko);
    r.append("'; echo; echo '브라우저 로그인/코드 확인을 완료해 주세요.'; ");
    let login = posix_command_line(flow.program, &flow.args);
    r.append(login.as_str());
    r.append("; echo; echo '로그인 명령이 끝났습니다. 검증 결과:'; ");
    let check = posix_command_line(flow.verify_program, &flow.verify_args);
    r.append(check.as_str());
    r.append("; echo; echo \"완료 후 앱으로 돌아가 '안전 진단 시작'을 다시 눌러 주세요.\"");
    r
}

// ---------------------------------------------------------------------------
// Reading quoted arguments back
// ---------------------------------------------------------------------------

/// How a POSIX shell reads one word: `'` opens and closes a quoted part in
/// which every character stands for itself, `\` outside quotes takes the next
/// character literally, plain characters stand for themselves; anything else
/// (a blank, an operator, an expansion) is not read as part of the word.
/// `quoted` says whether the reading starts inside single quotes.
pub open spec fn sh_read(s: Seq<char>, quoted: bool) -> Option<Seq<char>>
    decreases s.len(),
{
    if s.len() == 0 {
        if quoted {
            None
        } else {
            Some(Seq::empty())
        }
    } else if quoted {
        if s[0] == '\'' {
            sh_read(s.drop_first(), false)
        } else {
            match sh_read(s.drop_first(), true) {
                Some(r) => Some(seq![s[0]] + r),
                None => None,
            }
        }
    } else if s[0] == '\'' {
        sh_read(s.drop_first(), true)
    } else if s[0] == '\\' {
        if s.len() < 2 {
            None
        } else {
            match sh_read(s.skip(2), false) {
                Some(r) => Some(seq![s[1]] + r),
                None => None,
            }
        }
    } else if is_plain_arg_char(s[0]) {
        match sh_read(s.drop_first(), false) {
            Some(r) => Some(seq![s[0]] + r),
            None => None,
        }
    } else {
        None
    }
}

/// What replacing does to a text that starts with `c`.
pub proof fn lemma_replace_char_front(c: char, w: Seq<char>, x: char, by: Seq<char>)
    ensures
        replace_char(seq![c] + w, x, by) == (if c == x {
            by
        } else {
            seq![c]
        }) + replace_char(w, x, by),
    decreases w.len(),
{
    let v = seq![c] + w;
    if w.len() == 0 {
        assert(v.drop_last() =~= Seq::<char>::empty());
        assert(replace_char(w, x, by) =~= Seq::<char>::empty());
        assert(replace_char(Seq::<char>::empty(), x, by) =~= Seq::<char>::empty());
        assert(v.last() == c);
        if c == x {
            assert(replace_char(v, x, by) =~= by);
        } else {
            assert(replace_char(v, x, by) =~= seq![c]);
        }
    } else {
        lemma_replace_char_front(c, w.drop_last(), x, by);
        assert(v.drop_last() =~= seq![c] + w.drop_last());
        assert(v.last() == w.last());
        let head = if c == x {
            by
        } else {
            seq![c]
        };
        let tail = if w.last() == x {
            by
        } else {
            seq![w.last()]
        };
        assert(replace_char(v, x, by) =~= head + replace_char(w.drop_last(), x, by) + tail);
        assert(replace_char(w, x, by) == replace_char(w.drop_last(), x, by) + tail);
    }
}

/// Inside single quotes, the escaped text reads back as the original followed
/// by whatever the rest reads as.
proof fn lemma_sh_read_escaped(v: Seq<char>, tail: Seq<char>)
    ensures
        sh_read(replace_char(v, '\'', seq!['\'', '\\', '\'', '\'']) + tail, true) == match sh_read(
            tail,
            true,
        ) {
            Some(r) => Some(v + r),
            None => None::<Seq<char>>,
        },
    decreases v.len(),
{
    let q = seq!['\'', '\\', '\'', '\''];
    if v.len() == 0 {
        assert(replace_char(v, '\'', q) + tail =~= tail);
        assert(match sh_read(tail, true) {
            Some(r) => Some(v + r),
            None => None::<Seq<char>>,
        } == sh_read(tail, true)) by {
            if let Some(r) = sh_read(tail, true) {
                assert(v + r =~= r);
            }
        }
    } else {
        let c = v[0];
        let w = v.drop_first();
        assert(v =~= seq![c] + w);
        lemma_replace_char_front(c, w, '\'', q);
        lemma_sh_read_escaped(w, tail);
        let rest = replace_char(w, '\'', q) + tail;
        if c == '\'' {
            let s = q + rest;
            assert(replace_char(v, '\'', q) + tail =~= s);
            let s1 = s.drop_first();
            assert(s1 =~= seq!['\\', '\'', '\''] + rest);
            let s2 = s1.skip(2);
            assert(s2 =~= seq!['\''] + rest);
            assert(s2.drop_first() =~= rest);
            assert(sh_read(s2, false) == sh_read(rest, true));
            assert(sh_read(s1, false) == match sh_read(s2, false) {
                Some(r) => Some(seq!['\''] + r),
                None => None::<Seq<char>>,
            });
            assert(sh_read(s, true) == sh_read(s1, false));
            if let Some(r) = sh_read(tail, true) {
                assert(seq![c] + (w + r) =~= v + r);
            }
        } else {
            let s = seq![c] + rest;
            assert(replace_char(v, '\'', q) + tail =~= s);
            assert(s.drop_first() =~= rest);
            assert(sh_read(s, true) == match sh_read(rest, true) {
                Some(r) => Some(seq![c] + r),
                None => None::<Seq<char>>,
            });
            if let Some(r) = sh_read(tail, true) {
                assert(seq![c] + (w + r) =~= v + r);
            }
        }
    }
}

/// A word of plain characters reads back as itself.
proof fn lemma_sh_read_plain(v: Seq<char>)
    requires
        is_plain_arg(v),
    ensures
        sh_read(v, false) == Some(v),
    decreases v.len(),
{
    if v.len() > 0 {
        assert(is_plain_arg_char(v[0]));
        assert forall|i: int| 0 <= i < v.drop_first().len() implies is_plain_arg_char(
            #[trigger] v.drop_first()[i],
        ) by {
            assert(v.drop_first()[i] == v[i + 1]);
        }
        lemma_sh_read_plain(v.drop_first());
        assert(seq![v[0]] + v.drop_first() =~= v);
    } else {
        assert(v =~= Seq::<char>::empty());
    }
}

/// Whatever the value, a POSIX shell reads its quoted form back as exactly
/// that value, as one word: no character of the value can end the quoting.
pub proof fn lemma_sh_quoting_round_trip(v: Seq<char>)
    ensures
        sh_read(sh_quoted(v), false) == Some(v),
{
    if is_plain_arg(v) {
        lemma_sh_read_plain(v);
    } else {
        let q = seq!['\'', '\\', '\'', '\''];
        let s = sh_quoted(v);
        assert(s[0] == '\'');
        assert(s.drop_first() =~= replace_char(v, '\'', q) + seq!['\'']);
        lemma_sh_read_escaped(v, seq!['\'']);
        assert(seq!['\''].drop_first() =~= Seq::<char>::empty());
        assert(sh_read(seq!['\''], true) == sh_read(Seq::<char>::empty(), false));
        assert(sh_read(seq!['\''], true) == Some(Seq::<char>::empty()));
        assert(v + Seq::<char>::empty() =~= v);
    }
}

/// How AppleScript reads the body of a string literal after its opening
/// quote: `\\` stands for a backslash and `\"` for a double quote, an
/// unescaped double quote closes the literal and must be the last character.
pub open spec fn applescript_body(s: Seq<char>) -> Option<Seq<char>>
    decreases s.len(),
{
    if s.len() == 0 {
        None
    } else if s[0] == '"' {
        if s.len() == 1 {
            Some(Seq::empty())
        } else {
            None
        }
    } else if s[0] == '\\' {
        if s.len() < 2 || (s[1] != '\\' && s[1] != '"') {
            None
        } else {
            match applescript_body(s.skip(2)) {
                Some(r) => Some(seq![s[1]] + r),
                None => None,
            }
        }
    } else {
        match applescript_body(s.drop_first()) {
            Some(r) => Some(seq![s[0]] + r),
            None => None,
        }
    }
}

/// How AppleScript reads a string literal.
pub open spec fn applescript_read(s: Seq<char>) -> Option<Seq<char>> {
    if s.len() > 0 && s[0] == '"' {
        applescript_body(s.drop_first())
    } else {
        None
    }
}

/// Replacing distributes over concatenation.
pub proof fn lemma_replace_char_concat(a: Seq<char>, b: Seq<char>, x: char, by: Seq<char>)
    ensures
        replace_char(a + b, x, by) == replace_char(a, x, by) + replace_char(b, x, by),
    decreases b.len(),
{
    if b.len() == 0 {
        assert(a + b =~= a);
        assert(replace_char(b, x, by) =~= Seq::<char>::empty());
        assert(replace_char(a, x, by) + replace_char(b, x, by) =~= replace_char(a, x, by));
    } else {
        lemma_replace_char_concat(a, b.drop_last(), x, by);
        assert((a + b).drop_last() =~= a + b.drop_last());
        assert((a + b).last() == b.last());
        let t = if b.last() == x {
            by
        } else {
            seq![b.last()]
        };
        assert(replace_char(a + b, x, by) =~= replace_char(a, x, by) + replace_char(b.drop_last(), x, by) + t);
    }
}

/// The escape AppleScript needs for one character.
pub open spec fn applescript_escape(c: char) -> Seq<char> {
    if c == '\\' {
        seq!['\\', '\\']
    } else if c == '"' {
        seq!['\\', '"']
    } else {
        seq![c]
    }
}

/// The two replacements of [`applescript_quoted`], seen from the front.
proof fn lemma_applescript_escape_front(c: char, w: Seq<char>)
    ensures
        replace_char(replace_char(seq![c] + w, '\\', seq!['\\', '\\']), '"', seq!['\\', '"'])
            == applescript_escape(c) + replace_char(
            replace_char(w, '\\', seq!['\\', '\\']),
            '"',
            seq!['\\', '"'],
        ),
{
    let bs = seq!['\\', '\\'];
    let qt = seq!['\\', '"'];
    lemma_replace_char_front(c, w, '\\', bs);
    let p1 = if c == '\\' {
        bs
    } else {
        seq![c]
    };
    lemma_replace_char_concat(p1, replace_char(w, '\\', bs), '"', qt);
    if c == '\\' {
        lemma_replace_char_front('\\', seq!['\\'], '"', qt);
        lemma_replace_char_front('\\', Seq::<char>::empty(), '"', qt);
        assert(seq!['\\'] =~= seq!['\\'] + Seq::<char>::empty());
        assert(replace_char(Seq::<char>::empty(), '"', qt) =~= Seq::<char>::empty());
        assert(bs =~= seq!['\\'] + seq!['\\']);
        assert(replace_char(bs, '"', qt) =~= bs);
    } else {
        lemma_replace_char_front(c, Seq::<char>::empty(), '"', qt);
        assert(seq![c] =~= seq![c] + Seq::<char>::empty());
        assert(replace_char(Seq::<char>::empty(), '"', qt) =~= Seq::<char>::empty());
        if c == '"' {
            assert(replace_char(seq![c], '"', qt) =~= qt);
        } else {
            assert(replace_char(seq![c], '"', qt) =~= seq![c]);
        }
    }
}

proof fn lemma_applescript_body_escaped(v: Seq<char>)
    ensures
        applescript_body(
            replace_char(replace_char(v, '\\', seq!['\\', '\\']), '"', seq!['\\', '"']) + seq!['"'],
        ) == Some(v),
    decreases v.len(),
{
    let bs = seq!['\\', '\\'];
    let qt = seq!['\\', '"'];
    if v.len() == 0 {
        assert(replace_char(v, '\\', bs) =~= Seq::<char>::empty());
        assert(replace_char(Seq::<char>::empty(), '"', qt) =~= Seq::<char>::empty());
        assert(Seq::<char>::empty() + seq!['"'] =~= seq!['"']);
        assert(v =~= Seq::<char>::empty());
    } else {
        let c = v[0];
        let w = v.drop_first();
        assert(v =~= seq![c] + w);
        lemma_applescript_escape_front(c, w);
        lemma_applescript_body_escaped(w);
        let rest = replace_char(replace_char(w, '\\', bs), '"', qt) + seq!['"'];
        let s = applescript_escape(c) + rest;
        assert(replace_char(replace_char(v, '\\', bs), '"', qt) + seq!['"'] =~= s);
        if c == '\\' || c == '"' {
            assert(s.skip(2) =~= rest);
            assert(s[1] == c);
        } else {
            assert(s.drop_first() =~= rest);
        }
        assert(seq![c] + w =~= v);
    }
}

/// Whatever the text, AppleScript reads its quoted form back as exactly that
/// text: no character of it can end the string literal.
pub proof fn lemma_applescript_round_trip(v: Seq<char>)
    ensures
        applescript_read(applescript_quoted(v)) == Some(v),
{
    let s = applescript_quoted(v);
    assert(s[0] == '"');
    assert(s.drop_first() =~= replace_char(replace_char(v, '\\', seq!['\\', '\\']), '"', seq!['\\', '"']) + seq!['"']);
    lemma_applescript_body_escaped(v);
}

/// How a Windows program splits its command line into one argument
/// (`CommandLineToArgvW`), for text whose backslashes only ever precede a
/// double quote: `"` opens and closes a quoted part, inside which `\"` stands
/// for a double quote; outside quotes plain characters stand for themselves
/// and anything else is not read as part of the argument.
pub open spec fn argv_read(s: Seq<char>, quoted: bool) -> Option<Seq<char>>
    decreases s.len(),
{
    if s.len() == 0 {
        if quoted {
            None
        } else {
            Some(Seq::empty())
        }
    } else if quoted {
        if s[0] == '"' {
            argv_read(s.drop_first(), false)
        } else if s[0] == '\\' && s.len() >= 2 && s[1] == '"' {
            match argv_read(s.skip(2), true) {
                Some(r) => Some(seq!['"'] + r),
                None => None,
            }
        } else if s[0] == '\\' {
            None
        } else {
            match argv_read(s.drop_first(), true) {
                Some(r) => Some(seq![s[0]] + r),
                None => None,
            }
        }
    } else if s[0] == '"' {
        argv_read(s.drop_first(), true)
    } else if is_plain_arg_char(s[0]) {
        match argv_read(s.drop_first(), false) {
            Some(r) => Some(seq![s[0]] + r),
            None => None,
        }
    } else {
        None
    }
}

/// The text holds no backslash.
pub open spec fn has_no_backslash(v: Seq<char>) -> bool {
    forall|i: int| 0 <= i < v.len() ==> v[i] != '\\'
}

proof fn lemma_argv_read_escaped(v: Seq<char>, tail: Seq<char>)
    requires
        has_no_backslash(v),
    ensures
        argv_read(replace_char(v, '"', seq!['\\', '"']) + tail, true) == match argv_read(tail, true) {
            Some(r) => Some(v + r),
            None => None::<Seq<char>>,
        },
    decreases v.len(),
{
    let q = seq!['\\', '"'];
    if v.len() == 0 {
        assert(replace_char(v, '"', q) + tail =~= tail);
        if let Some(r) = argv_read(tail, true) {
            assert(v + r =~= r);
        }
    } else {
        let c = v[0];
        let w = v.drop_first();
        assert(v =~= seq![c] + w);
        assert(c != '\\');
        assert forall|i: int| 0 <= i < w.len() implies w[i] != '\\' by {
            assert(w[i] == v[i + 1]);
        }
        lemma_replace_char_front(c, w, '"', q);
        lemma_argv_read_escaped(w, tail);
        let rest = replace_char(w, '"', q) + tail;
        if c == '"' {
            let s = q + rest;
            assert(replace_char(v, '"', q) + tail =~= s);
            assert(s.skip(2) =~= rest);
        } else {
            let s = seq![c] + rest;
            assert(replace_char(v, '"', q) + tail =~= s);
            assert(s.drop_first() =~= rest);
        }
        if let Some(r) = argv_read(tail, true) {
            assert(seq![c] + (w + r) =~= v + r);
        }
    }
}

proof fn lemma_argv_read_plain(v: Seq<char>)
    requires
        is_plain_arg(v),
    ensures
        argv_read(v, false) == Some(v),
    decreases v.len(),
{
    if v.len() > 0 {
        assert(is_plain_arg_char(v[0]));
        assert forall|i: int| 0 <= i < v.drop_first().len() implies is_plain_arg_char(
            #[trigger] v.drop_first()[i],
        ) by {
            assert(v.drop_first()[i] == v[i + 1]);
        }
        lemma_argv_read_plain(v.drop_first());
        assert(seq![v[0]] + v.drop_first() =~= v);
    } else {
        assert(v =~= Seq::<char>::empty());
    }
}

/// A Windows program reads the quoted form of any value without backslashes
/// back as exactly that value, as one argument. (A value that ends in a
/// backslash, such as `a\`, is not read back: its backslash escapes the
/// closing quote.)
pub proof fn lemma_cmd_quoting_round_trip(v: Seq<char>)
    requires
        has_no_backslash(v),
    ensures
        argv_read(cmd_quoted(v), false) == Some(v),
{
    if is_plain_arg(v) {
        lemma_argv_read_plain(v);
    } else {
        let q = seq!['\\', '"'];
        let s = cmd_quoted(v);
        assert(s[0] == '"');
        assert(s.drop_first() =~= replace_char(v, '"', q) + seq!['"']);
        lemma_argv_read_escaped(v, seq!['"']);
        assert(seq!['"'].drop_first() =~= Seq::<char>::empty());
        assert(seq!['"'][0] == '"');
        assert(argv_read(seq!['"'], true) == argv_read(Seq::<char>::empty(), false));
        assert(argv_read(seq!['"'], true) == Some(Seq::<char>::empty()));
        assert(v + Seq::<char>::empty() =~= v);
    }
}

} // verus!
