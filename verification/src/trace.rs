//! Finding the caller's public address in the answer of the trace endpoint,
//! a plain text of `key=value` lines.

use vstd::prelude::*;
use vstd::std_specs::iter::IteratorSpec;

verus! {

/// The address family over which the trace endpoint is asked. The driver
/// binds its connection to the wildcard address of that family, so that the
/// endpoint sees an address of that family even on a dual-stack host.
#[derive(Clone, Copy, Debug, PartialEq, Eq, Structural)]
pub enum IPProto {
    V4,
    V6,
}

/// Why no address was found.
#[derive(Clone, Copy, Debug, PartialEq, Eq, Structural)]
pub enum DiscoveryError {
    /// No line of the text begins with `ip=`.
    NoIpLine,
}

/// Where the trace endpoint is.
pub open spec fn trace_url() -> Seq<char> {
    "https://cloudflare.com/cdn-cgi/trace"@
}

/// The number of characters that stand before the first line feed of `text`,
/// or the length of `text` where it has none.
pub open spec fn line_break(text: Seq<char>) -> nat
    decreases text.len(),
{
    if text.len() == 0 || text[0] == '\n' {
        0
    } else {
        1 + line_break(text.drop_first())
    }
}

/// The first line of a text that a line feed ends, without its line ending:
/// the line feed, and the carriage return before it if there is one.
pub open spec fn ended_line(text: Seq<char>) -> Seq<char>
    recommends
        line_break(text) < text.len(),
{
    let n = line_break(text) as int;
    if n > 0 && text[n - 1] == '\r' {
        text.take(n - 1)
    } else {
        text.take(n)
    }
}

/// The lines of a text. A line ends in a line feed, or in a carriage return
/// and a line feed; neither belongs to the line. What follows the last line
/// feed is a line too unless it is empty, and a carriage return at its end
/// stays.
pub open spec fn lines(text: Seq<char>) -> Seq<Seq<char>>
    decreases text.len(),
{
    let n = line_break(text) as int;
    if text.len() == 0 {
        Seq::empty()
    } else if n >= text.len() {
        seq![text]
    } else {
        seq![ended_line(text)] + lines(text.skip(n + 1))
    }
}

/// Whether a line gives the address: it begins with `ip=`.
pub open spec fn is_ip_line(line: Seq<char>) -> bool {
    "ip="@.is_prefix_of(line)
}

/// What follows `ip=` in the first of `lines` that begins with it.
pub open spec fn first_ip(lines: Seq<Seq<char>>) -> Option<Seq<char>>
    decreases lines.len(),
{
    if lines.len() == 0 {
        None
    } else if is_ip_line(lines[0]) {
        Some(lines[0].skip(3))
    } else {
        first_ip(lines.drop_first())
    }
}

/// The address that a trace reports: what follows `ip=` in the first line
/// that begins with it.
pub open spec fn trace_ip(body: Seq<char>) -> Option<Seq<char>> {
    first_ip(lines(body))
}

/// An address is found where some line begins with `ip=`, and is taken from
/// the first line that does; none is found where no line does.
pub proof fn lemma_first_ip(lines: Seq<Seq<char>>)
    ensures
        match first_ip(lines) {
            Some(ip) => exists|i: int|
                {
                    &&& 0 <= i < lines.len()
                    &&& #[trigger] is_ip_line(lines[i])
                    &&& ip == lines[i].skip(3)
                    &&& forall|j: int| 0 <= j < i ==> !is_ip_line(#[trigger] lines[j])
                },
            None => forall|i: int| 0 <= i < lines.len() ==> !is_ip_line(#[trigger] lines[i]),
        },
    decreases lines.len(),
{
    if lines.len() > 0 && !is_ip_line(lines[0]) {
        let rest = lines.drop_first();
        lemma_first_ip(rest);
        assert(forall|i: int| 0 < i < lines.len() ==> lines[i] == rest[i - 1]);
        if let Some(ip) = first_ip(rest) {
            let i = choose|i: int|
                {
                    &&& 0 <= i < rest.len()
                    &&& #[trigger] is_ip_line(rest[i])
                    &&& ip == rest[i].skip(3)
                    &&& forall|j: int| 0 <= j < i ==> !is_ip_line(#[trigger] rest[j])
                };
            assert(is_ip_line(lines[i + 1]));
        }
    }
}

/// A text whose first `n` characters are no line feeds, and which ends
/// there or goes on with a line feed, has its first line feed at `n`.
pub proof fn lemma_line_break(text: Seq<char>, n: int)
    requires
        0 <= n <= text.len(),
        forall|k: int| 0 <= k < n ==> text[k] != '\n',
        n < text.len() ==> text[n] == '\n',
    ensures
        line_break(text) == n,
    decreases n,
{
    if n > 0 {
        lemma_line_break(text.drop_first(), n - 1);
    }
}

/// Whether `line` is `ip=` as far as both go: where the line has a first,
/// second or third character, it is that of `ip=`.
pub open spec fn agrees_with_key(line: Seq<char>) -> bool {
    &&& line.len() > 0 ==> line[0] == 'i'
    &&& line.len() > 1 ==> line[1] == 'p'
    &&& line.len() > 2 ==> line[2] == '='
}

/// A line begins with `ip=` where it has three characters and agrees with
/// `ip=` in them.
pub proof fn lemma_ip_line(line: Seq<char>)
    ensures
        is_ip_line(line) <==> line.len() >= 3 && agrees_with_key(line),
{
    reveal_strlit("ip=");
    if is_ip_line(line) {
        assert(line.subrange(0, 3)[0] == line[0]);
        assert(line.subrange(0, 3)[1] == line[1]);
        assert(line.subrange(0, 3)[2] == line[2]);
    }
}

/// Finds the address in the body of a trace: what follows `ip=` in the first
/// line that begins with it.
pub fn find_ip(body: &str) -> (r: Result<String, DiscoveryError>)
    ensures
        match trace_ip(body@) {
            Some(ip) => r matches Ok(found) && found@ == ip,
            None => r == Err::<String, DiscoveryError>(DiscoveryError::NoIpLine),
        },
{
    let len = body.unicode_len();
    let mut chars = body.chars();
    // The line that is being read starts at `start`; `at` characters are read.
    let mut start: usize = 0;
    let mut at: usize = 0;
    // Whether what is read of the line agrees with `ip=`.
    let mut key: bool = true;
    // Whether the character read last belongs to the line and is a carriage return.
    let mut cr: bool = false;
    loop
        invariant
            len == body@.len(),
            start <= at <= len,
            chars.remaining() == body@.skip(at as int),
            forall|k: int| start <= k < at ==> body@[k] != '\n',
            trace_ip(body@) == first_ip(lines(body@.skip(start as int))),
            key == agrees_with_key(body@.subrange(start as int, at as int)),
            cr <==> start < at && body@[at - 1] == '\r',
        decreases len - at,
    {
        // What is left of the body from the start of the line.
        let ghost rest = body@.skip(start as int);
        match chars.next() {
            Some(c) => {
                if c == '\n' {
                    let end: usize = if cr {
                        at - 1
                    } else {
                        at
                    };
                    proof {
                        lemma_line_break(rest, at - start);
                        lemma_ip_line(ended_line(rest));
                        assert(rest.skip(at - start + 1) =~= body@.skip(at + 1));
                        assert(lines(rest).drop_first() =~= lines(body@.skip(at + 1)));
                    }
                    if key && at - start >= 3 {
                        assert(ended_line(rest).skip(3) =~= body@.subrange(
                            start + 3,
                            end as int,
                        ));
                        return Ok(String::from_str(body.substring_char(start + 3, end)));
                    }
                    start = at + 1;
                    key = true;
                    cr = false;
                } else {
                    if at - start == 0 {
                        key = c == 'i';
                    } else if at - start == 1 {
                        key = key && c == 'p';
                    } else if at - start == 2 {
                        key = key && c == '=';
                    }
                    cr = c == '\r';
                }
                at = at + 1;
            },
            None => {
                proof {
                    lemma_line_break(rest, at - start);
                    lemma_ip_line(rest);
                    assert(first_ip(Seq::empty()) is None);
                    if start < at {
                        assert(lines(rest).drop_first() =~= Seq::<Seq<char>>::empty());
                    }
                }
                if key && at - start >= 3 {
                    return Ok(String::from_str(body.substring_char(start + 3, at)));
                }
                return Err(DiscoveryError::NoIpLine);
            },
        }
    }
}

} // verus!
