//! Names of the pipes that stand behind endpoint paths and in-process pairs.
use vstd::prelude::*;

#[allow(unused_imports)]
use crate::text::{decimal, decimal_injective, decimal_is_digits};
use crate::text::{chars_of, push_decimal, starts_with};
use crate::utf16::encode_wide_nul;
#[allow(unused_imports)]
use crate::utf16::{encode_utf16_injective, encode_utf16_spec};

verus! {

/// Where the names of local pipes begin.
pub open spec fn pipe_namespace() -> Seq<char> {
    "\\\\.\\pipe\\"@
}

/// Separators, drive colons and reserved characters, none of which a pipe name keeps.
pub open spec fn is_reserved(c: char) -> bool {
    c == '\\' || c == '/' || c == ':' || c == '|' || c == '<' || c == '>' || c == '"' || c == '?'
        || c == '*'
}

/// `c`, or an underscore in its place when it is reserved.
pub open spec fn sanitize(c: char) -> char {
    if is_reserved(c) {
        '_'
    } else {
        c
    }
}

/// `s` without its leading underscores.
pub open spec fn trim_underscores(s: Seq<char>) -> Seq<char>
    decreases s.len(),
{
    if s.len() > 0 && s.first() == '_' {
        trim_underscores(s.drop_first())
    } else {
        s
    }
}

/// The pipe behind an endpoint path. A path that already names a local pipe is kept; any other
/// becomes a single-segment name.
pub open spec fn pipe_name(path: Seq<char>) -> Seq<char> {
    if pipe_namespace().is_prefix_of(path) {
        path
    } else {
        pipe_namespace() + "herdr-"@ + trim_underscores(path.map_values(|c: char| sanitize(c)))
    }
}

fn sanitize_char(c: char) -> (r: char)
    ensures
        r == sanitize(c),
{
    if c == '\\' || c == '/' || c == ':' || c == '|' || c == '<' || c == '>' || c == '"' || c == '?'
        || c == '*' {
        '_'
    } else {
        c
    }
}

/// The NUL-terminated name of the pipe behind `path`.
pub fn path_to_pipe_name(path: &str) -> (wide: Vec<u16>)
    ensures
        wide@ == encode_utf16_spec(pipe_name(path@)).push(0),
{
    let cs = chars_of(path);
    if starts_with(&cs, "\\\\.\\pipe\\") {
        return encode_wide_nul(path);
    }
    let ghost cleaned = path@.map_values(|c: char| sanitize(c));
    let mut from: usize = 0;
    assert(cleaned.skip(0) =~= cleaned);
    while from < cs.len() && sanitize_char(cs[from]) == '_'
        invariant
            cs@ == path@,
            cleaned == path@.map_values(|c: char| sanitize(c)),
            from <= cs.len(),
            trim_underscores(cleaned.skip(from as int)) == trim_underscores(cleaned),
        decreases cs.len() - from,
    {
        assert(cleaned.skip(from as int).drop_first() =~= cleaned.skip(from + 1));
        from += 1;
    }
    assert(trim_underscores(cleaned) == cleaned.skip(from as int));
    let mut name = String::new();
    name.append("\\\\.\\pipe\\");
    name.append("herdr-");
    let ghost head = name@;
    let mut i: usize = from;
    while i < cs.len()
        invariant
            cs@ == path@,
            cleaned == path@.map_values(|c: char| sanitize(c)),
            from <= i <= cs.len(),
            name@ =~= head + cleaned.subrange(from as int, i as int),
        decreases cs.len() - i,
    {
        name.push(sanitize_char(cs[i]));
        i += 1;
    }
    assert(cleaned.subrange(from as int, i as int) =~= cleaned.skip(from as int));
    encode_wide_nul(name.as_str())
}

/// Every endpoint lives in the namespace of local pipes, and naming the pipe of a pipe changes
/// nothing.
pub proof fn pipe_name_is_stable(path: Seq<char>)
    ensures
        pipe_namespace().is_prefix_of(pipe_name(path)),
        pipe_name(pipe_name(path)) == pipe_name(path),
{
    let rest = "herdr-"@ + trim_underscores(path.map_values(|c: char| sanitize(c)));
    assert((pipe_namespace() + rest).subrange(0, pipe_namespace().len() as int)
        =~= pipe_namespace());
    assert(pipe_namespace() + "herdr-"@ + trim_underscores(path.map_values(|c: char| sanitize(c)))
        =~= pipe_namespace() + rest);
}

/// A path outside the pipe namespace becomes a single segment: nothing reserved stands behind the
/// namespace.
pub proof fn pipe_name_is_one_segment(path: Seq<char>)
    requires
        !pipe_namespace().is_prefix_of(path),
    ensures
        forall|i: int|
            pipe_namespace().len() <= i < pipe_name(path).len() ==> !is_reserved(
                #[trigger] pipe_name(path)[i],
            ),
{
    let cleaned = path.map_values(|c: char| sanitize(c));
    let kept = trim_underscores(cleaned);
    let mark = "herdr-"@;
    reveal_strlit("herdr-");
    trim_underscores_keeps_chars(cleaned);
    assert forall|i: int| pipe_namespace().len() <= i < pipe_name(path).len() implies !is_reserved(
        #[trigger] pipe_name(path)[i],
    ) by {
        let at = i - pipe_namespace().len();
        if at < mark.len() {
            assert(pipe_name(path)[i] == mark[at]);
        } else {
            assert(pipe_name(path)[i] == kept[at - mark.len()]);
            assert(cleaned.contains(kept[at - mark.len()]));
            let k = choose|k: int| 0 <= k < cleaned.len() && cleaned[k] == kept[at - mark.len()];
            assert(cleaned[k] == sanitize(path[k]));
        }
    }
}

/// What is left of a text without its leading underscores was in it before.
proof fn trim_underscores_keeps_chars(s: Seq<char>)
    ensures
        forall|i: int|
            0 <= i < trim_underscores(s).len() ==> s.contains(#[trigger] trim_underscores(s)[i]),
    decreases s.len(),
{
    if s.len() > 0 && s.first() == '_' {
        let tail = s.drop_first();
        trim_underscores_keeps_chars(tail);
        assert forall|i: int| 0 <= i < trim_underscores(s).len() implies s.contains(
            #[trigger] trim_underscores(s)[i],
        ) by {
            let c = trim_underscores(tail)[i];
            assert(tail.contains(c));
            let k = choose|k: int| 0 <= k < tail.len() && tail[k] == c;
            assert(s[k + 1] == c);
        }
    }
}

/// The pipe of one direction of an in-process pair.
pub open spec fn pair_name(pid: u32, nonce: u64, channel: u8) -> Seq<char> {
    "\\\\.\\pipe\\herdr-pair-"@ + decimal(pid as nat) + "-"@ + decimal(nonce as nat) + "-"@
        + decimal(channel as nat)
}

/// The NUL-terminated name of the pipe of one direction of an in-process pair.
pub fn make_pair_name(pid: u32, nonce: u64, channel: u8) -> (wide: Vec<u16>)
    ensures
        wide@ == encode_utf16_spec(pair_name(pid, nonce, channel)).push(0),
{
    let mut name = String::new();
    name.append("\\\\.\\pipe\\herdr-pair-");
    push_decimal(&mut name, pid as u64);
    name.append("-");
    push_decimal(&mut name, nonce);
    name.append("-");
    push_decimal(&mut name, channel as u64);
    assert(name@ =~= pair_name(pid, nonce, channel));
    encode_wide_nul(name.as_str())
}

/// The nonce of a pair, from the process id, a time stamp and the number of pairs made before.
pub open spec fn pair_nonce_spec(pid: u32, stamp: u64, count: u64) -> int {
    (pid * 1_000_003 + stamp + count) % 0x1_0000_0000_0000_0000
}

/// The nonce that sets one in-process pair apart from the others.
pub fn next_pair_nonce(pid: u32, stamp: u64, count: u64) -> (nonce: u64)
    ensures
        nonce == pair_nonce_spec(pid, stamp, count),
{
    (pid as u64).wrapping_mul(1_000_003).wrapping_add(stamp).wrapping_add(count)
}

/// As long as the clock does not run backwards, later pairs of a process have other nonces, for
/// all of the range of a 64-bit nonce.
pub proof fn later_pairs_have_other_nonces(
    pid: u32,
    stamp: u64,
    count: u64,
    later_stamp: u64,
    later_count: u64,
)
    requires
        stamp <= later_stamp,
        count < later_count,
        (later_stamp - stamp) + (later_count - count) < 0x1_0000_0000_0000_0000,
    ensures
        pair_nonce_spec(pid, stamp, count) != pair_nonce_spec(pid, later_stamp, later_count),
{
    let m = 0x1_0000_0000_0000_0000int;
    let x = pid * 1_000_003 + stamp + count;
    let y = pid * 1_000_003 + later_stamp + later_count;
    assert(0 < y - x < m);
    assert(x % m != y % m) by (nonlinear_arith)
        requires
            m == 0x1_0000_0000_0000_0000int,
            0 < y - x < m,
    ;
}

/// Pipes of pairs share a name only when process, nonce and direction are all the same.
pub proof fn pair_names_are_unique(
    pid: u32,
    nonce: u64,
    channel: u8,
    other_pid: u32,
    other_nonce: u64,
    other_channel: u8,
)
    requires
        encode_utf16_spec(pair_name(pid, nonce, channel)).push(0) == encode_utf16_spec(
            pair_name(other_pid, other_nonce, other_channel),
        ).push(0),
    ensures
        pid == other_pid,
        nonce == other_nonce,
        channel == other_channel,
{
    let name = pair_name(pid, nonce, channel);
    let other = pair_name(other_pid, other_nonce, other_channel);
    assert(encode_utf16_spec(name) =~= encode_utf16_spec(name).push(0).drop_last());
    assert(encode_utf16_spec(other) =~= encode_utf16_spec(other).push(0).drop_last());
    encode_utf16_injective(name, other);
    let start = "\\\\.\\pipe\\herdr-pair-"@;
    let (p, n, c) = (decimal(pid as nat), decimal(nonce as nat), decimal(channel as nat));
    let (q, m, d) = (
        decimal(other_pid as nat),
        decimal(other_nonce as nat),
        decimal(other_channel as nat),
    );
    reveal_strlit("-");
    assert(name.skip(start.len() as int) =~= p + seq!['-'] + (n + seq!['-'] + c));
    assert(other.skip(start.len() as int) =~= q + seq!['-'] + (m + seq!['-'] + d));
    decimal_is_digits(pid as nat);
    decimal_is_digits(nonce as nat);
    decimal_is_digits(other_pid as nat);
    decimal_is_digits(other_nonce as nat);
    first_dash_splits(p, n + seq!['-'] + c, q, m + seq!['-'] + d);
    first_dash_splits(n, c, m, d);
    decimal_injective(pid as nat, other_pid as nat);
    decimal_injective(nonce as nat, other_nonce as nat);
    decimal_injective(channel as nat, other_channel as nat);
}

/// A text splits in one way only at its first dash.
proof fn first_dash_splits(a: Seq<char>, x: Seq<char>, b: Seq<char>, y: Seq<char>)
    requires
        a + seq!['-'] + x == b + seq!['-'] + y,
        forall|i: int| 0 <= i < a.len() ==> #[trigger] a[i] != '-',
        forall|i: int| 0 <= i < b.len() ==> #[trigger] b[i] != '-',
    ensures
        a == b,
        x == y,
{
    let s = a + seq!['-'] + x;
    let t = b + seq!['-'] + y;
    assert(s[a.len() as int] == '-');
    assert(t[b.len() as int] == '-');
    if a.len() < b.len() {
        assert(t[a.len() as int] == b[a.len() as int]);
    }
    if b.len() < a.len() {
        assert(s[b.len() as int] == a[b.len() as int]);
    }
    assert(a =~= s.take(a.len() as int));
    assert(b =~= t.take(b.len() as int));
    assert(x =~= s.skip(a.len() as int + 1));
    assert(y =~= t.skip(b.len() as int + 1));
}

/// What a pipe is named after. A path that names a local pipe keeps its name. Of any other, the name
/// behind the namespace and the project's mark is the path without the characters it begins with
/// that would read as an underscore, character by character: each separator and reserved character
/// as an underscore, and every other as it is.
pub proof fn pipe_names_follow_the_path(path: Seq<char>) -> (cut: int)
    ensures
        "\\\\.\\pipe\\"@.is_prefix_of(path) ==> pipe_name(path) == path,
        !"\\\\.\\pipe\\"@.is_prefix_of(path) ==> {
            let mark = "\\\\.\\pipe\\"@ + "herdr-"@;
            let name = pipe_name(path);
            &&& 0 <= cut <= path.len()
            &&& name.len() == mark.len() + path.len() - cut
            &&& name.take(mark.len() as int) == mark
            &&& forall|i: int|
                cut <= i < path.len() ==> ({
                    let c = #[trigger] path[i];
                    let kept = name[mark.len() + i - cut];
                    if c == '\\' || c == '/' || c == ':' || c == '|' || c == '<' || c == '>' || c
                        == '"' || c == '?' || c == '*' {
                        kept == '_'
                    } else {
                        kept == c
                    }
                })
            &&& forall|i: int|
                0 <= i < cut ==> ({
                    let c = #[trigger] path[i];
                    c == '_' || c == '\\' || c == '/' || c == ':' || c == '|' || c == '<' || c
                        == '>' || c == '"' || c == '?' || c == '*'
                })
            &&& cut < path.len() ==> name[mark.len() as int] != '_'
        },
{
    let cleaned = path.map_values(|c: char| sanitize(c));
    let cut = trim_underscores_cut(cleaned);
    let mark = "\\\\.\\pipe\\"@ + "herdr-"@;
    let name = pipe_name(path);
    if !"\\\\.\\pipe\\"@.is_prefix_of(path) {
        assert(name =~= mark + cleaned.skip(cut));
        assert(name.take(mark.len() as int) =~= mark);
        assert forall|i: int| cut <= i < path.len() implies name[mark.len() + i - cut] == sanitize(
            #[trigger] path[i],
        ) by {
            assert(cleaned[i] == sanitize(path[i]));
            assert(cleaned.skip(cut)[i - cut] == cleaned[i]);
        }
        assert forall|i: int| 0 <= i < cut implies sanitize(#[trigger] path[i]) == '_' by {
            assert(cleaned[i] == sanitize(path[i]));
        }
        if cut < path.len() {
            assert(cleaned.skip(cut)[0] == cleaned[cut]);
            assert(name[mark.len() as int] == cleaned[cut]);
        }
    }
    cut
}

/// How many underscores a text begins with.
proof fn trim_underscores_cut(s: Seq<char>) -> (n: int)
    ensures
        0 <= n <= s.len(),
        trim_underscores(s) == s.skip(n),
        forall|i: int| 0 <= i < n ==> #[trigger] s[i] == '_',
        n < s.len() ==> s[n] != '_',
    decreases s.len(),
{
    if s.len() > 0 && s.first() == '_' {
        let tail = s.drop_first();
        let m = trim_underscores_cut(tail);
        assert(tail.skip(m) =~= s.skip(m + 1));
        assert forall|i: int| 0 <= i < m + 1 implies #[trigger] s[i] == '_' by {
            if i > 0 {
                assert(tail[i - 1] == s[i]);
            }
        }
        if m < tail.len() {
            assert(tail[m] == s[m + 1]);
        }
        m + 1
    } else {
        assert(s.skip(0) =~= s);
        0
    }
}

/// A nonce is the number that the process id, the clock and the count add up to, as far as 64 bits
/// can hold it: one more pair, or one more tick, is one more.
pub proof fn nonces_add_up(pid: u32, stamp: u64, count: u64)
    ensures
        ({
            let nonce = pair_nonce_spec(pid, stamp, count);
            &&& 0 <= nonce <= u64::MAX
            &&& exists|m: int| #[trigger] (m * 0x1_0000_0000_0000_0000) + nonce == pid * 1_000_003
                + stamp + count
        }),
{
    let sum = pid * 1_000_003 + stamp + count;
    let m = sum / 0x1_0000_0000_0000_0000;
    assert(m * 0x1_0000_0000_0000_0000 + sum % 0x1_0000_0000_0000_0000 == sum);
}

/// The name of a pair's pipe tells its process, nonce and direction in decimal, set off by dashes.
pub proof fn pair_names_spell_out_their_parts(pid: u32, nonce: u64, channel: u8)
    ensures
        ({
            let name = pair_name(pid, nonce, channel);
            let start = "\\\\.\\pipe\\herdr-pair-"@;
            let at = start.len() as int;
            let (p, n, c) = (decimal(pid as nat), decimal(nonce as nat), decimal(channel as nat));
            &&& name.take(at) == start
            &&& name.subrange(at, at + p.len()) == p
            &&& name[at + p.len()] == '-'
            &&& name.subrange(at + p.len() + 1, at + p.len() + 1 + n.len()) == n
            &&& name[at + p.len() + 1 + n.len()] == '-'
            &&& name.skip(at + p.len() + n.len() + 2) == c
            &&& crate::text::numeral_value(p) == pid
            &&& crate::text::numeral_value(n) == nonce
            &&& crate::text::numeral_value(c) == channel
        }),
{
    reveal_strlit("-");
    let name = pair_name(pid, nonce, channel);
    let start = "\\\\.\\pipe\\herdr-pair-"@;
    let at = start.len() as int;
    let (p, n, c) = (decimal(pid as nat), decimal(nonce as nat), decimal(channel as nat));
    assert(name.take(at) =~= start);
    assert(name.subrange(at, at + p.len()) =~= p);
    assert(name.subrange(at + p.len() + 1, at + p.len() + 1 + n.len()) =~= n);
    assert(name.skip(at + p.len() + n.len() + 2) =~= c);
    crate::text::numerals_read_back(pid as nat);
    crate::text::numerals_read_back(nonce as nat);
    crate::text::numerals_read_back(channel as nat);
}

} // verus!
