//! What the client prints when one of its worker threads ends. Running the
//! threads and printing are left to the caller.
use vstd::prelude::*;
use vstd::string::StringExecFns;

verus! {

/// What to do about a thread that ended: the lines to print, whether to
/// give the terminal back first, and whether to stop listening for others.
#[derive(Debug)]
pub struct ThreadReport {
    pub lines: Vec<String>,
    pub restore_terminal: bool,
    pub stop: bool,
}

/// The lines printed for a thread that ended: a success notice, or the
/// error and its backtrace.
pub open spec fn report_lines(name: Seq<char>, error: Option<(Seq<char>, Seq<char>)>) -> Seq<Seq<char>> {
    match error {
        None => seq!["Thread "@ + name + " returned successfully"@],
        Some((msg, trace)) => seq!["Error from thread "@ + name + ": "@ + msg, "err: "@ + trace],
    }
}

/// The report for the thread `thread_name` that ended, with its error text
/// and backtrace if it failed. The terminal is given back before an error is
/// printed; listening stops after a thread marked `throw`.
pub fn thread_report(thread_name: &str, error: Option<(String, String)>, throw: bool) -> (r:
    ThreadReport)
    ensures
        r.lines@.map_values(|l: String| l@) == report_lines(
            thread_name@,
            match error {
                None => None,
                Some((m, t)) => Some((m@, t@)),
            },
        ),
        r.restore_terminal == error is Some,
        r.stop == throw,
{
    let mut lines: Vec<String> = Vec::new();
    let restore_terminal = error.is_some();
    match error {
        None => {
            let mut l = String::new();
            l.append("Thread ");
            l.append(thread_name);
            l.append(" returned successfully");
            lines.push(l);
        },
        Some((msg, trace)) => {
            let mut l = String::new();
            l.append("Error from thread ");
            l.append(thread_name);
            l.append(": ");
            l.append(msg.as_str());
            lines.push(l);
            let mut t = String::new();
            t.append("err: ");
            t.append(trace.as_str());
            lines.push(t);
        },
    }
    proof {
        assert(lines@.map_values(|l: String| l@) =~= report_lines(
            thread_name@,
            match error {
                None => None,
                Some((m, t)) => Some((m@, t@)),
            },
        ));
    }
    ThreadReport { lines, restore_terminal, stop: throw }
}

} // verus!
