//! The decisions of the device debug console: numbers, tokens, line editing,
//! command lookup and the `mem` command.
use vstd::prelude::*;
use crate::supervisor::text_is;

verus! {

/// Whether a byte separates console tokens: a space, a line feed or a tab.
pub fn is_whitespace(byte: u8) -> (r: bool)
    ensures
        r == (byte == 0x20u8 || byte == 0x0au8 || byte == 0x09u8),
{
    byte == 0x20u8 || byte == 0x0au8 || byte == 0x09u8
}

/// The value of `c` as a digit in `radix` (10 or 16), if it is one.
pub open spec fn digit_value(c: char, radix: nat) -> Option<nat> {
    let v: nat = if '0' <= c && c <= '9' {
        (c as nat - '0' as nat) as nat
    } else if 'a' <= c && c <= 'z' {
        (c as nat - 'a' as nat + 10) as nat
    } else if 'A' <= c && c <= 'Z' {
        (c as nat - 'A' as nat + 10) as nat
    } else {
        36
    };
    if v < radix {
        Some(v)
    } else {
        None
    }
}

/// The value of a run of digits in `radix`, if every character is a digit.
pub open spec fn digits_value(s: Seq<char>, radix: nat) -> Option<nat>
    decreases s.len(),
{
    if s.len() == 0 {
        Some(0)
    } else {
        match (digits_value(s.drop_last(), radix), digit_value(s.last(), radix)) {
            (Some(high), Some(d)) => Some(high * radix + d),
            _ => None,
        }
    }
}

/// The radix of a token and its digits: hexadecimal after a `0x` prefix,
/// decimal otherwise; a single leading `+` is allowed before the digits.
pub open spec fn number_parts(token: Seq<char>) -> (nat, Seq<char>) {
    let (radix, num) = if token.len() >= 2 && token[0] == '0' && token[1] == 'x' {
        (16nat, token.subrange(2, token.len() as int))
    } else {
        (10nat, token)
    };
    if num.len() > 0 && num[0] == '+' {
        (radix, num.subrange(1, num.len() as int))
    } else {
        (radix, num)
    }
}

/// The number a console token denotes, if it denotes one that fits a `usize`.
pub open spec fn number_of(token: Seq<char>) -> Option<nat> {
    let (radix, digits) = number_parts(token);
    if digits.len() == 0 {
        None
    } else {
        match digits_value(digits, radix) {
            Some(v) => if v <= usize::MAX {
                Some(v)
            } else {
                None
            },
            None => None,
        }
    }
}

proof fn lemma_digits_value_grows(s: Seq<char>, radix: nat, n: int)
    requires
        0 <= n <= s.len(),
        radix >= 2,
        digits_value(s.subrange(0, n), radix) is Some,
        digits_value(s, radix) is Some,
    ensures
        digits_value(s.subrange(0, n), radix)->Some_0 <= digits_value(s, radix)->Some_0,
    decreases s.len() - n,
{
    if n < s.len() {
        lemma_digits_prefix_some(s, radix, n + 1);
        let t = s.subrange(0, n + 1);
        assert(t.drop_last() =~= s.subrange(0, n));
        let high = digits_value(s.subrange(0, n), radix)->Some_0;
        let d = digit_value(t.last(), radix)->Some_0;
        assert(digits_value(t, radix) == Some(high * radix + d));
        assert(high <= high * radix + d) by (nonlinear_arith)
            requires
                radix >= 2,
        ;
        lemma_digits_value_grows(s, radix, n + 1);
    } else {
        assert(s.subrange(0, n) =~= s);
    }
}

proof fn lemma_digits_prefix_some(s: Seq<char>, radix: nat, n: int)
    requires
        0 <= n <= s.len(),
        digits_value(s, radix) is Some,
    ensures
        digits_value(s.subrange(0, n), radix) is Some,
    decreases s.len() - n,
{
    if n < s.len() {
        lemma_digits_prefix_some(s, radix, n + 1);
        let t = s.subrange(0, n + 1);
        assert(t.drop_last() =~= s.subrange(0, n));
    } else {
        assert(s.subrange(0, n) =~= s);
    }
}

/// The value of `c` as a digit in `radix`.
fn digit(c: char, radix: u32) -> (r: Option<usize>)
    requires
        radix == 10 || radix == 16,
    ensures
        r matches Some(v) ==> digit_value(c, radix as nat) == Some(v as nat),
        r is None ==> digit_value(c, radix as nat) is None,
{
    let v: u32 = if '0' <= c && c <= '9' {
        (c as u32) - ('0' as u32)
    } else if 'a' <= c && c <= 'z' {
        (c as u32) - ('a' as u32) + 10
    } else if 'A' <= c && c <= 'Z' {
        (c as u32) - ('A' as u32) + 10
    } else {
        36
    };
    if v < radix {
        Some(v as usize)
    } else {
        None
    }
}

/// Parses a console number: decimal, or hexadecimal after `0x`, with an
/// optional `+` before the digits. Anything else, and a value that does
/// not fit a `usize`, gives `None`.
pub fn parse_number(token: &str) -> (r: Option<usize>)
    ensures
        r matches Some(v) ==> number_of(token@) == Some(v as nat),
        r is None ==> number_of(token@) is None,
{
    let n = token.unicode_len();
    let mut radix: u32 = 10;
    let mut start: usize = 0;
    if n >= 2 && token.get_char(0) == '0' && token.get_char(1) == 'x' {
        radix = 16;
        start = 2;
    }
    if start < n && token.get_char(start) == '+' {
        start = start + 1;
    }
    let ghost parts = number_parts(token@);
    proof {
        assert(parts.0 == radix as nat);
        assert(parts.1 =~= token@.subrange(start as int, n as int));
    }
    if start >= n {
        return None;
    }
    let ghost digits = parts.1;
    let mut acc: usize = 0;
    let mut i: usize = start;
    while i < n
        invariant
            start <= i <= n,
            n == token@.len(),
            radix == 10 || radix == 16,
            radix as nat == parts.0,
            parts == number_parts(token@),
            digits == parts.1,
            digits == token@.subrange(start as int, n as int),
            digits_value(token@.subrange(start as int, i as int), radix as nat) == Some(acc as nat),
        decreases n - i,
    {
        let c = token.get_char(i);
        let ghost pre = token@.subrange(start as int, i as int + 1);
        proof {
            assert(pre.drop_last() =~= token@.subrange(start as int, i as int));
            assert(pre.last() == c);
        }
        match digit(c, radix) {
            None => {
                proof {
                    assert(digits_value(pre, radix as nat) is None);
                    if digits_value(digits, radix as nat) is Some {
                        lemma_digits_prefix_some(digits, radix as nat, i - start + 1);
                        assert(digits.subrange(0, i - start + 1) =~= pre);
                    }
                }
                return None;
            },
            Some(d) => {
                let next = match acc.checked_mul(radix as usize) {
                    Some(m) => m.checked_add(d),
                    None => None,
                };
                match next {
                    Some(v) => {
                        acc = v;
                    },
                    None => {
                        proof {
                            let big = (acc as nat) * (radix as nat) + (d as nat);
                            assert(big > usize::MAX) by (nonlinear_arith)
                                requires
                                    (acc as nat) * (radix as nat) > usize::MAX || (acc as nat) * (
                                    radix as nat) + (d as nat) > usize::MAX,
                                    big == (acc as nat) * (radix as nat) + (d as nat),
                            ;
                            assert(digits_value(pre, radix as nat) == Some(big));
                            if digits_value(digits, radix as nat) is Some {
                                assert(digits.subrange(0, i - start + 1) =~= pre);
                                lemma_digits_value_grows(digits, radix as nat, i - start + 1);
                            }
                        }
                        return None;
                    },
                }
            },
        }
        i = i + 1;
    }
    Some(acc)
}

pub open spec fn is_space(b: u8) -> bool {
    b == 0x20u8 || b == 0x0au8 || b == 0x09u8
}

/// Reading the first `n` bytes of a line: the tokens completed so far and
/// the token under way.
pub open spec fn scan(line: Seq<u8>, n: nat) -> (Seq<Seq<u8>>, Seq<u8>)
    decreases n,
{
    if n == 0 || n > line.len() {
        (Seq::empty(), Seq::empty())
    } else {
        let (done, cur) = scan(line, (n - 1) as nat);
        let b = line[n - 1];
        if is_space(b) {
            if cur.len() > 0 {
                (done.push(cur), Seq::empty())
            } else {
                (done, Seq::empty())
            }
        } else {
            (done, cur.push(b))
        }
    }
}

/// The tokens of a line: its maximal runs of bytes other than whitespace,
/// in order.
pub open spec fn tokens_of(line: Seq<u8>) -> Seq<Seq<u8>> {
    let (done, cur) = scan(line, line.len());
    if cur.len() > 0 {
        done.push(cur)
    } else {
        done
    }
}

pub open spec fn byte_views(v: Seq<Vec<u8>>) -> Seq<Seq<u8>> {
    v.map_values(|t: Vec<u8>| t@)
}

/// Splits a command line into tokens, keeping at most `capacity` of them.
pub fn parse_cmd(line: &Vec<u8>, capacity: usize) -> (r: Vec<Vec<u8>>)
    ensures
        byte_views(r@) == tokens_of(line@).take(
            if tokens_of(line@).len() < capacity { tokens_of(line@).len() as int } else { capacity as int },
        ),
{
    let mut done: Vec<Vec<u8>> = Vec::new();
    let mut cur: Vec<u8> = Vec::new();
    let mut i: usize = 0;
    while i < line.len()
        invariant
            i <= line@.len(),
            (byte_views(done@), cur@) == scan(line@, i as nat),
        decreases line@.len() - i,
    {
        let b = line[i];
        let ghost prev = scan(line@, i as nat);
        if is_whitespace(b) {
            if cur.len() > 0 {
                let finished = cur;
                cur = Vec::new();
                done.push(finished);
                proof {
                    assert(byte_views(done@) =~= prev.0.push(prev.1));
                }
            } else {
                cur = Vec::new();
            }
            proof {
                assert(cur@ =~= Seq::<u8>::empty());
            }
        } else {
            cur.push(b);
        }
        i = i + 1;
    }
    if cur.len() > 0 {
        let ghost prev = byte_views(done@);
        done.push(cur);
        proof {
            assert(byte_views(done@) =~= prev.push(done@.last()@));
        }
    }
    let ghost all = tokens_of(line@);
    assert(byte_views(done@) == all);
    let mut r: Vec<Vec<u8>> = Vec::new();
    let mut rest = done;
    let total = rest.len();
    while r.len() < capacity && rest.len() > 0
        invariant
            total == all.len(),
            r@.len() + rest@.len() == total,
            r@.len() <= capacity,
            byte_views(r@) == all.take(r@.len() as int),
            byte_views(rest@) == all.skip(r@.len() as int),
        decreases rest@.len(),
    {
        let ghost k = r@.len() as int;
        let t = rest.remove(0);
        proof {
            assert(byte_views(rest@) =~= all.skip(k + 1)) by {
                assert forall|j: int| 0 <= j < rest@.len() implies #[trigger] byte_views(rest@)[j] == all.skip(
                    k + 1,
                )[j] by {
                    assert(all.skip(k)[j + 1] == all.skip(k + 1)[j]);
                }
            }
            assert(t@ == all[k]) by {
                assert(all.skip(k)[0] == all[k]);
            }
        }
        r.push(t);
        proof {
            assert(byte_views(r@) =~= all.take(k + 1));
        }
    }
    r
}

/// Errors of console commands.
#[derive(Debug)]
pub enum ConsoleError {
    InvalidArgNumber,
    InvalidValue,
    InvalidSubcomand,
    /// A system call failed with this code.
    Sys(u32),
}

/// What a `mem` command asks to be done with memory.
#[derive(Debug)]
pub enum MemCommand {
    /// Dump `length` bytes from `address`.
    Read { address: usize, length: usize },
    /// Store `values` from `address` on.
    Write { address: usize, values: Vec<u8> },
    /// Touch no memory.
    Ignored,
}

/// The decision on a `mem` command: what to do with memory, then what to
/// report.
#[derive(Debug)]
pub struct MemPlan {
    pub action: MemCommand,
    pub result: Result<(), ConsoleError>,
}

/// An address aligned down to 16 bytes.
pub open spec fn aligned(a: nat) -> nat {
    (a - a % 16) as nat
}

/// The value argument at `i` of a `mem write` is a number that fits a byte.
pub open spec fn byte_value_ok(args: Seq<String>, i: int) -> bool {
    number_of(args[i]@) is Some && number_of(args[i]@)->Some_0 <= 0xff
}

/// The decision of a `mem` command on its arguments, the first being the
/// command name: `mem read <address> <length>` or
/// `mem write <address> <value>...`. A write stores the values up to the
/// first one that is not a byte, and then reports that one.
pub fn mem_cmd(args: &Vec<String>) -> (r: MemPlan)
    ensures
        args@.len() == 0 ==> r.action is Ignored && r.result matches Err(ConsoleError::InvalidArgNumber),
        args@.len() == 4 && args@[1]@ == "read"@ ==> r.result is Ok && match (
            number_of(args@[2]@),
            number_of(args@[3]@),
        ) {
            (Some(a), Some(l)) => r.action matches MemCommand::Read { address, length } && address
                == aligned(a) && length == l,
            _ => r.action is Ignored,
        },
        args@.len() >= 3 && args@[1]@ == "write"@ ==> match number_of(args@[2]@) {
            None => r.action is Ignored && r.result is Ok,
            Some(a) => r.action matches MemCommand::Write { address, values } && address == aligned(a)
                && values@.len() <= args@.len() - 3 && (forall|i: int|
                0 <= i < values@.len() ==> number_of(args@[i + 3]@) == Some(#[trigger] values@[i] as nat))
                && (values@.len() == args@.len() - 3 ==> r.result is Ok) && (values@.len() < args@.len() - 3
                ==> !byte_value_ok(args@, values@.len() as int + 3) && r.result matches Err(
                ConsoleError::InvalidValue,
            )),
        },
        args@.len() >= 1 && !(args@.len() == 4 && args@[1]@ == "read"@) && !(args@.len() >= 3
            && args@[1]@ == "write"@) ==> r.action is Ignored && r.result matches Err(
            ConsoleError::InvalidSubcomand,
        ),
{
    proof {
        reveal_strlit("read");
        reveal_strlit("write");
        assert("read"@.len() != "write"@.len());
    }
    let n = args.len();
    if n == 0 {
        return MemPlan { action: MemCommand::Ignored, result: Err(ConsoleError::InvalidArgNumber) };
    }
    if n == 4 && text_is(&args[1], "read") {
        let action = match (parse_number(args[2].as_str()), parse_number(args[3].as_str())) {
            (Some(addr), Some(len)) => MemCommand::Read { address: addr - addr % 16, length: len },
            _ => MemCommand::Ignored,
        };
        return MemPlan { action, result: Ok(()) };
    }
    if n >= 3 && text_is(&args[1], "write") {
        let addr = match parse_number(args[2].as_str()) {
            Some(a) => a,
            None => {
                return MemPlan { action: MemCommand::Ignored, result: Ok(()) };
            },
        };
        let mut values: Vec<u8> = Vec::new();
        let mut i: usize = 3;
        while i < n
            invariant
                3 <= i <= n,
                n == args@.len(),
                args@[1]@ == "write"@,
                "read"@ != "write"@,
                number_of(args@[2]@) == Some(addr as nat),
                values@.len() == i - 3,
                forall|j: int|
                    0 <= j < values@.len() ==> number_of(args@[j + 3]@) == Some(
                        #[trigger] values@[j] as nat,
                    ),
            decreases n - i,
        {
            let v = match parse_number(args[i].as_str()) {
                Some(v) => v,
                None => 256,
            };
            if v > 0xff {
                return MemPlan {
                    action: MemCommand::Write { address: addr - addr % 16, values },
                    result: Err(ConsoleError::InvalidValue),
                };
            }
            values.push(v as u8);
            i = i + 1;
        }
        return MemPlan {
            action: MemCommand::Write { address: addr - addr % 16, values },
            result: Ok(()),
        };
    }
    MemPlan { action: MemCommand::Ignored, result: Err(ConsoleError::InvalidSubcomand) }
}

/// Carriage return.
pub const CR: u8 = 0x0d;
/// Line feed.
pub const LF: u8 = 0x0a;
/// Backspace.
pub const BS: u8 = 0x08;
/// Delete.
pub const DEL: u8 = 0x7f;
/// Escape, the start of an escape sequence.
pub const ESC: u8 = 0x1b;

/// What the console is to show, or do, after one byte of input.
#[derive(PartialEq, Eq, Structural, Clone, Copy, Debug)]
pub enum EditAction {
    /// The line is complete.
    Submit,
    /// Nothing to show.
    Ignore,
    /// Echo the byte just added.
    Echo(u8),
    /// Redraw the line after an erase.
    Redraw,
    /// Show that an escape was received.
    ShowEscape,
    /// Show the code of a byte that cannot be printed.
    ShowCode(u8),
}

/// A line being typed at the console, and the room there is for it.
#[derive(Debug)]
pub struct LineEditor {
    pub line: Vec<u8>,
    pub capacity: usize,
}

/// One byte of input: the line after it and what to show.
pub open spec fn edit_step(line: Seq<u8>, byte: u8) -> (Seq<u8>, EditAction) {
    if byte == CR {
        (line, EditAction::Submit)
    } else if byte == LF {
        (line, EditAction::Ignore)
    } else if byte == ESC {
        (line, EditAction::ShowEscape)
    } else if byte == BS || byte == DEL {
        if line.len() > 0 {
            (line.drop_last(), EditAction::Redraw)
        } else {
            (line, EditAction::Ignore)
        }
    } else if 0x20 <= byte && byte <= 0x7e {
        (line.push(byte), EditAction::Echo(byte))
    } else {
        (line, EditAction::ShowCode(byte))
    }
}

impl LineEditor {
    pub fn new(capacity: usize) -> (r: LineEditor)
        ensures
            r.line@.len() == 0,
            r.capacity == capacity,
    {
        LineEditor { line: Vec::new(), capacity }
    }

    /// Whether the line has filled the room there is for it.
    pub fn is_full(&self) -> (r: bool)
        ensures
            r == (self.line@.len() >= self.capacity),
    {
        self.line.len() >= self.capacity
    }

    /// Takes one byte of input: a carriage return ends the line, a line
    /// feed is dropped, backspace and delete erase the last byte, a
    /// printable byte is added.
    pub fn feed(&mut self, byte: u8) -> (r: EditAction)
        requires
            old(self).line@.len() < old(self).capacity,
        ensures
            final(self).capacity == old(self).capacity,
            (final(self).line@, r) == edit_step(old(self).line@, byte),
            final(self).line@.len() <= final(self).capacity,
    {
        if byte == CR {
            EditAction::Submit
        } else if byte == LF {
            EditAction::Ignore
        } else if byte == ESC {
            EditAction::ShowEscape
        } else if byte == BS || byte == DEL {
            if self.line.len() > 0 {
                self.line.pop();
                EditAction::Redraw
            } else {
                EditAction::Ignore
            }
        } else if 0x20 <= byte && byte <= 0x7e {
            self.line.push(byte);
            EditAction::Echo(byte)
        } else {
            EditAction::ShowCode(byte)
        }
    }
}

/// Where the first command named `name` stands in a command table, if anywhere.
pub fn find_command(names: &Vec<String>, name: &String) -> (r: Option<usize>)
    ensures
        r is None <==> forall|i: int| 0 <= i < names@.len() ==> names@[i]@ != name@,
        r matches Some(k) ==> k < names@.len() && names@[k as int]@ == name@ && forall|i: int|
            0 <= i < k ==> names@[i]@ != name@,
{
    let mut i: usize = 0;
    while i < names.len()
        invariant
            i <= names@.len(),
            forall|j: int| 0 <= j < i ==> names@[j]@ != name@,
        decreases names@.len() - i,
    {
        if names[i] == *name {
            return Some(i);
        }
        i = i + 1;
    }
    None
}

} // verus!
