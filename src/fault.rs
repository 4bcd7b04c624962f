//! The report of a run that ended in a fault: where it was raised, what kind
//! of fault it is and its message, printed in the usual traceback layout.
use vstd::prelude::*;

verus! {

/// One call of the traceback, outermost first.
pub struct TraceEntry {
    pub file: String,
    pub line: u32,
    pub function: String,
}

/// A fault that ended a run.
pub struct Fault {
    pub trace: Vec<TraceEntry>,
    /// The name of the exception's class.
    pub kind: String,
    /// The exception's text, empty when it has none.
    pub message: String,
}

pub open spec fn digit_char(d: nat) -> char {
    seq!['0', '1', '2', '3', '4', '5', '6', '7', '8', '9'][d as int]
}

/// `n` written in decimal.
pub open spec fn decimal(n: nat) -> Seq<char>
    decreases n,
{
    if n < 10 {
        seq![digit_char(n)]
    } else {
        decimal(n / 10).push(digit_char(n % 10))
    }
}

fn digit_text(d: u32) -> (r: &'static str)
    requires
        d < 10,
    ensures
        r@ == seq![digit_char(d as nat)],
{
    proof {
        reveal_strlit("0");
        reveal_strlit("1");
        reveal_strlit("2");
        reveal_strlit("3");
        reveal_strlit("4");
        reveal_strlit("5");
        reveal_strlit("6");
        reveal_strlit("7");
        reveal_strlit("8");
        reveal_strlit("9");
    }
    let r = match d {
        0 => "0",
        1 => "1",
        2 => "2",
        3 => "3",
        4 => "4",
        5 => "5",
        6 => "6",
        7 => "7",
        8 => "8",
        _ => "9",
    };
    assert(r@ =~= seq![digit_char(d as nat)]);
    r
}

/// Appends `n` in decimal to `buffer`.
pub fn write_decimal(buffer: &mut String, n: u32)
    ensures
        final(buffer)@ == old(buffer)@ + decimal(n as nat),
    decreases n,
{
    if n >= 10 {
        write_decimal(buffer, n / 10);
    }
    buffer.append(digit_text(n % 10));
    proof {
        if n >= 10 {
            assert(decimal(n as nat) == decimal((n / 10) as nat).push(digit_char((n % 10) as nat)));
        }
    }
    assert(final(buffer)@ =~= old(buffer)@ + decimal(n as nat));
}

/// The line that names one call of the traceback.
pub open spec fn entry_text(e: TraceEntry) -> Seq<char> {
    "  File \""@ + e.file@ + "\", line "@ + decimal(e.line as nat) + ", in "@ + e.function@
        + "\n"@
}

/// The lines that name the calls `es`, in order.
pub open spec fn entries_text(es: Seq<TraceEntry>) -> Seq<char>
    decreases es.len(),
{
    if es.len() == 0 {
        seq![]
    } else {
        entries_text(es.drop_last()) + entry_text(es.last())
    }
}

/// The printed report of `f`: the traceback, when there is one, then the
/// kind of fault with its message.
pub open spec fn fault_text(f: Fault) -> Seq<char> {
    let head = if f.trace@.len() > 0 {
        "Traceback (most recent call last):\n"@ + entries_text(f.trace@)
    } else {
        seq![]
    };
    let tail = if f.message@.len() > 0 {
        f.kind@ + ": "@ + f.message@
    } else {
        f.kind@
    };
    head + tail + "\n"@
}

impl Fault {
    /// Prints the fault as a traceback; the text is never empty.
    pub fn describe(&self) -> (r: String)
        ensures
            r@ == fault_text(*self),
            r@.len() > 0,
    {
        let mut text = String::new();
        let n = self.trace.len();
        if n > 0 {
            text.append("Traceback (most recent call last):\n");
        }
        let ghost start = text@;
        let mut i: usize = 0;
        while i < n
            invariant
                i <= n,
                n == self.trace@.len(),
                text@ == start + entries_text(self.trace@.subrange(0, i as int)),
            decreases n - i,
        {
            let e = &self.trace[i];
            let ghost before = text@;
            text.append("  File \"");
            text.append(e.file.as_str());
            text.append("\", line ");
            write_decimal(&mut text, e.line);
            text.append(", in ");
            text.append(e.function.as_str());
            text.append("\n");
            let ghost done = self.trace@.subrange(0, i + 1);
            assert(done.drop_last() =~= self.trace@.subrange(0, i as int));
            assert(done.last() == self.trace@[i as int]);
            assert(text@ =~= before + entry_text(self.trace@[i as int]));
            i = i + 1;
        }
        assert(self.trace@.subrange(0, n as int) =~= self.trace@);
        text.append(self.kind.as_str());
        if self.message.unicode_len() > 0 {
            text.append(": ");
            text.append(self.message.as_str());
        }
        text.append("\n");
        proof {
            reveal_strlit("\n");
        }
        assert(text@ =~= fault_text(*self));
        text
    }
}

} // verus!
