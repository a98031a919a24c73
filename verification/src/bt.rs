//! The location text that the server attaches to its errors: the file and
//! line that raised the error, and the whole backtrace when asked for.
use vstd::prelude::*;
use vstd::string::StringExecFns;
use crate::room_creator::opt_view;
use crate::text::{chars_of, decimal_digits, decimal_string};

verus! {

/// One symbol of a stack frame: its source file and line, when known.
#[derive(Debug)]
pub struct FrameSymbol {
    pub file: Option<String>,
    pub line: Option<u32>,
}

/// The view of a frame symbol.
pub open spec fn symbol_view(s: FrameSymbol) -> (Option<Seq<char>>, Option<u32>) {
    (
        match s.file {
            Some(f) => Some(f@),
            None => None,
        },
        s.line,
    )
}

/// Captures the stack of the running thread with `backtrace::Backtrace::new`:
/// for each frame, innermost first, the file and line of its symbols, and the
/// whole backtrace written out with its `Debug` format. Nothing is claimed
/// of the result: it depends on the running program and the machine.
#[verifier::external_body]
fn capture_stack() -> (r: (Vec<Vec<FrameSymbol>>, String)) {
    let bt = backtrace::Backtrace::new();
    let frames = bt.frames().iter().map(|f| {
        f.symbols().iter().map(|s| FrameSymbol {
            file: s.filename().map(|p| p.display().to_string()),
            line: s.lineno(),
        }).collect()
    }).collect();
    (frames, format!("{bt:?}"))
}

impl FrameSymbol {
    /// A copy of this symbol.
    pub fn duplicate(&self) -> (s: FrameSymbol)
        ensures
            symbol_view(s) == symbol_view(*self),
    {
        let file = match &self.file {
            Some(f) => Some(f.clone()),
            None => None,
        };
        FrameSymbol { file, line: self.line }
    }
}

/// The views of a list of symbols.
pub open spec fn symbol_views(v: Seq<FrameSymbol>) -> Seq<(Option<Seq<char>>, Option<u32>)> {
    v.map_values(|s: FrameSymbol| symbol_view(s))
}

/// The views of the symbols of each frame, innermost frame first.
pub open spec fn frame_views(frames: Seq<Vec<FrameSymbol>>) -> Seq<Seq<(Option<Seq<char>>, Option<u32>)>> {
    frames.map_values(|f: Vec<FrameSymbol>| symbol_views(f@))
}

/// The symbols of the frames, one frame after the other.
pub open spec fn joined_symbols(frames: Seq<Seq<(Option<Seq<char>>, Option<u32>)>>) -> Seq<
    (Option<Seq<char>>, Option<u32>),
>
    decreases frames.len(),
{
    if frames.len() == 0 {
        Seq::empty()
    } else {
        joined_symbols(frames.drop_last()) + frames.last()
    }
}

/// The frames without the `n` innermost ones.
pub open spec fn frames_after(frames: Seq<Seq<(Option<Seq<char>>, Option<u32>)>>, n: int) -> Seq<
    Seq<(Option<Seq<char>>, Option<u32>)>,
> {
    if frames.len() <= n {
        Seq::empty()
    } else {
        frames.subrange(n, frames.len() as int)
    }
}

/// The number of innermost frames that belong to capturing the stack: the
/// capture itself and the function that asks for it.
pub open spec fn capture_frames() -> int {
    2
}

/// The place an error was raised: among the frames outside the capture, the
/// first symbol that has both a file and a line.
pub open spec fn caller_location(frames: Seq<Seq<(Option<Seq<char>>, Option<u32>)>>) -> Option<
    (Seq<char>, u32),
> {
    first_location(joined_symbols(frames_after(frames, capture_frames())))
}

/// The file and line of the first symbol that has both.
pub open spec fn first_location(syms: Seq<(Option<Seq<char>>, Option<u32>)>) -> Option<(Seq<char>, u32)>
    decreases syms.len(),
{
    if syms.len() == 0 {
        None
    } else {
        match syms[0] {
            (Some(f), Some(l)) => Some((f, l)),
            _ => first_location(syms.drop_first()),
        }
    }
}

/// The location text: `\nlocation: {file}:{line}` followed by the whole
/// backtrace when it is asked for, or `(location unknown)`.
pub open spec fn location_text(loc: Option<(Seq<char>, u32)>, whole: Seq<char>) -> Seq<char> {
    match loc {
        Some((file, line)) => "\nlocation: "@ + file + ":"@ + decimal_digits(line as nat) + whole,
        None => "(location unknown)"@,
    }
}

/// The backtrace part of the text: shown when `RUST_BACKTRACE` is `1`.
pub open spec fn whole_backtrace_text(env: Option<Seq<char>>, trace: Seq<char>) -> Seq<char> {
    if env == Some(seq!['1']) {
        "\nbacktrace: \n"@ + trace
    } else {
        Seq::empty()
    }
}

/// Where an error was raised.
#[derive(Debug)]
pub struct Bt {
    location: String,
}

impl Bt {
    /// The location text of an error.
    pub closed spec fn text_of(&self) -> Seq<char> {
        self.location@
    }

    /// The location of an error, from the symbols of the frames above the
    /// one that raised it (the first with a file and a line is the place),
    /// the value of `RUST_BACKTRACE`, and the written-out backtrace, shown
    /// only when that value is `1`.
    pub fn new(symbols: Vec<FrameSymbol>, backtrace_env: Option<String>, trace: String) -> (bt: Bt)
        ensures
            bt.text_of() == location_text(
                first_location(symbol_views(symbols@)),
                whole_backtrace_text(opt_view(backtrace_env), trace@),
            ),
    {
        let ghost sv = symbol_views(symbols@);
        let mut found: Option<(String, u32)> = None;
        let mut i: usize = 0;
        assert(sv.subrange(0, sv.len() as int) == sv);
        while i < symbols.len() && found.is_none()
            invariant
                i <= symbols.len(),
                sv == symbol_views(symbols@),
                found is None ==> first_location(sv) == first_location(
                    sv.subrange(i as int, sv.len() as int),
                ),
                found matches Some((f, l)) ==> first_location(sv) == Some((f@, l)),
            decreases symbols.len() - i,
        {
            let ghost rest = sv.subrange(i as int, sv.len() as int);
            proof {
                assert(rest[0] == symbol_view(symbols@[i as int]));
                assert(rest.drop_first() == sv.subrange(i + 1, sv.len() as int));
            }
            match (&symbols[i].file, symbols[i].line) {
                (Some(f), Some(l)) => {
                    found = Some((f.clone(), l));
                },
                _ => {},
            }
            i = i + 1;
        }
        proof {
            if found is None {
                assert(sv.subrange(i as int, sv.len() as int).len() == 0);
            }
        }
        let mut whole = String::new();
        let asked = match &backtrace_env {
            Some(e) => {
                let v = chars_of(e.as_str());
                let b = v.len() == 1 && v[0] == '1';
                proof {
                    if b {
                        assert(v@ =~= seq!['1']);
                    }
                    if e@ == seq!['1'] {
                        assert(v@[0] == '1');
                    }
                }
                b
            },
            None => false,
        };
        if asked {
            whole.append("\nbacktrace: \n");
            whole.append(trace.as_str());
        }
        let mut location = String::new();
        match found {
            Some((file, line)) => {
                location.append("\nlocation: ");
                location.append(file.as_str());
                location.append(":");
                let digits = decimal_string(line);
                location.append(digits.as_str());
                location.append(whole.as_str());
            },
            None => {
                location.append("(location unknown)");
            },
        }
        Bt { location }
    }

    /// The location of an error from a captured stack: `frames` holds the
    /// symbols of each frame, innermost first; the frames of the capture are
    /// left out and the text is built as `new` builds it from the symbols of
    /// the remaining frames, in order.
    pub fn from_frames(frames: Vec<Vec<FrameSymbol>>, backtrace_env: Option<String>, trace: String) -> (bt:
        Bt)
        ensures
            bt.text_of() == location_text(
                caller_location(frame_views(frames@)),
                whole_backtrace_text(opt_view(backtrace_env), trace@),
            ),
    {
        let ghost fv = frame_views(frames@);
        let mut symbols: Vec<FrameSymbol> = Vec::new();
        let mut i: usize = 2;
        if frames.len() < 2 {
            i = frames.len();
        }
        let start: usize = i;
        proof {
            assert(fv.subrange(start as int, start as int).len() == 0);
            assert(joined_symbols(fv.subrange(start as int, start as int)) =~= Seq::empty());
        }
        while i < frames.len()
            invariant
                start <= i <= frames@.len(),
                start == (if frames@.len() < 2 { frames@.len() as int } else { 2 }),
                fv == frame_views(frames@),
                symbol_views(symbols@) == joined_symbols(fv.subrange(start as int, i as int)),
            decreases frames.len() - i,
        {
            let ghost before = symbol_views(symbols@);
            let mut j: usize = 0;
            while j < frames[i].len()
                invariant
                    i < frames@.len(),
                    j <= frames@[i as int]@.len(),
                    fv == frame_views(frames@),
                    symbol_views(symbols@) == before + fv[i as int].subrange(0, j as int),
                decreases frames@[i as int]@.len() - j,
            {
                let ghost prev = symbols@;
                let c = frames[i][j].duplicate();
                symbols.push(c);
                proof {
                    assert(symbol_views(symbols@) == symbol_views(prev).push(symbol_view(c)));
                    assert(fv[i as int][j as int] == symbol_view(frames@[i as int]@[j as int]));
                    assert(fv[i as int].subrange(0, j + 1) == fv[i as int].subrange(0, j as int).push(
                        fv[i as int][j as int],
                    ));
                    assert(symbol_views(symbols@) =~= before + fv[i as int].subrange(0, j + 1));
                }
                j = j + 1;
            }
            proof {
                assert(fv[i as int].subrange(0, fv[i as int].len() as int) == fv[i as int]);
                let nxt = fv.subrange(start as int, i + 1);
                assert(nxt.drop_last() == fv.subrange(start as int, i as int));
                assert(nxt.last() == fv[i as int]);
            }
            i = i + 1;
        }
        proof {
            assert(frames_after(fv, capture_frames()) == fv.subrange(start as int, fv.len() as int));
        }
        Bt::new(symbols, backtrace_env, trace)
    }

    /// The location of the caller of the function that calls `capture`: the
    /// stack is captured and its location read by `from_frames`.
    /// `backtrace_env` is the value of `RUST_BACKTRACE`, if set.
    pub fn capture(backtrace_env: Option<String>) -> (bt: Bt)
        ensures
            exists|frames: Seq<Vec<FrameSymbol>>, trace: Seq<char>|
                bt.text_of() == #[trigger] location_text(
                    caller_location(frame_views(frames)),
                    whole_backtrace_text(opt_view(backtrace_env), trace),
                ),
    {
        let (frames, trace) = capture_stack();
        let ghost fr = frames@;
        let ghost tr = trace@;
        let bt = Bt::from_frames(frames, backtrace_env, trace);
        proof {
            assert(bt.text_of() == location_text(
                caller_location(frame_views(fr)),
                whole_backtrace_text(opt_view(backtrace_env), tr),
            ));
        }
        bt
    }

    /// The location text, as it is written in error messages.
    pub fn text(&self) -> (s: String)
        ensures
            s@ == self.text_of(),
    {
        self.location.clone()
    }
}

} // verus!
