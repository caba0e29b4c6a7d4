//! Adapter for a menu-launcher front-end that drives an external program
//! through a line-oriented text protocol.
//!
//! The front-end invokes the program repeatedly, passing the interaction
//! state in an environment variable and the current input text as process
//! arguments.  The program answers on standard output with a block of
//! mode-option lines followed by one line per selectable row.  This crate
//! holds the verified core of that exchange: decoding the invocation
//! context into typed values, and encoding rows and mode options into the
//! exact byte format the front-end parses.
//!
//! Reading the environment and arguments and writing standard output are
//! the caller's concern; every function here maps plain values to plain
//! values.

use vstd::prelude::*;

pub mod env;
pub mod io;
pub mod option;

pub use crate::env::Retv;
pub use crate::env::parse_i8;
pub use crate::io::RofiOutput;
pub use crate::option::ModeOption;
pub use crate::option::RowOption;
pub use crate::option::option_line;

use crate::env::spec_decode_retv;
use crate::env::spec_parse_i8;
use crate::option::spec_mode_is_empty;
use crate::option::spec_mode_render;
use crate::option::spec_row_render;

verus! {

/// The environment the front-end sets for one invocation: so far only
/// the state variable, decoded to a typed value.
pub struct RofiEnv {
    /// The decoded interaction state; absent when the variable was unset
    /// or held no parsable integer.
    pub rofi_retv: Option<Retv>,
}

/// What the raw text of the state variable decodes to: no text or
/// unparsable text degrades silently to no state, while a parsed integer
/// outside every defined range is reported as an error carrying that
/// integer.
pub open spec fn spec_env_from_var(raw: Option<Seq<char>>) -> Result<RofiEnv, i8> {
    match raw {
        None => Ok(RofiEnv { rofi_retv: None }),
        Some(s) => match spec_parse_i8(s) {
            None => Ok(RofiEnv { rofi_retv: None }),
            Some(v) => match spec_decode_retv(v) {
                Ok(state) => Ok(RofiEnv { rofi_retv: Some(state) }),
                Err(e) => Err(e),
            },
        },
    }
}

impl Default for RofiEnv {
    /// An environment with no state variable set.
    fn default() -> (r: RofiEnv)
        ensures
            r.rofi_retv is None,
    {
        RofiEnv { rofi_retv: None }
    }
}

impl RofiEnv {
    /// Decodes the raw text of the state variable, if the caller found
    /// one set.
    pub fn from_retv_var(raw: Option<&str>) -> (r: Result<RofiEnv, i8>)
        ensures
            r == spec_env_from_var(
                match raw {
                    Some(s) => Some(s@),
                    None => None,
                },
            ),
    {
        match raw {
            None => Ok(RofiEnv { rofi_retv: None }),
            Some(s) => match parse_i8(s) {
                None => Ok(RofiEnv { rofi_retv: None }),
                Some(v) => match Retv::from_value(v) {
                    Ok(state) => Ok(RofiEnv { rofi_retv: Some(state) }),
                    Err(e) => Err(e),
                },
            },
        }
    }
}

/// The characters of the given parts joined with a single space between
/// neighbours: nothing for no parts, and no space before the first or
/// after the last part.
pub open spec fn spec_join(parts: Seq<Seq<char>>) -> Seq<char>
    decreases parts.len(),
{
    if parts.len() == 0 {
        Seq::<char>::empty()
    } else if parts.len() == 1 {
        parts[0]
    } else {
        spec_join(parts.drop_last()) + " "@ + parts.last()
    }
}

/// Joins invocation arguments with single spaces to form the current
/// input text.  The caller passes the arguments after the program's own
/// path, unchanged: no trimming and no escaping.
#[verifier::loop_isolation(false)]
pub fn join_args(args: &Vec<String>) -> (r: String)
    ensures
        r@ == spec_join(args.deep_view()),
{
    let mut out = String::new();
    let mut i: usize = 0;
    while i < args.len()
        invariant
            i <= args.len(),
            out@ == spec_join(args.deep_view().take(i as int)),
        decreases args.len() - i,
    {
        if i > 0 {
            out.append(" ");
        }
        out.append(args[i].as_str());
        proof {
            let dv = args.deep_view();
            let p = dv.take(i as int);
            let p2 = dv.take(i + 1 as int);
            assert(p2.drop_last() =~= p);
            assert(p2.last() == dv[i as int]);
            assert(dv[i as int] == args@[i as int]@);
        }
        i = i + 1;
    }
    proof {
        assert(args.deep_view().take(args.len() as int) =~= args.deep_view());
    }
    out
}

/// The context one invocation runs in: the decoded environment and the
/// current input text.
pub struct RofiContext {
    /// The decoded environment variables.
    pub env: RofiEnv,
    /// The user's current input: all invocation arguments after the
    /// program's own path, space-joined.
    pub input: String,
}

impl Default for RofiContext {
    /// A context with no state and empty input.
    fn default() -> (r: RofiContext)
        ensures
            r.env.rofi_retv is None,
            r.input@ == Seq::<char>::empty(),
    {
        RofiContext { env: RofiEnv { rofi_retv: None }, input: String::new() }
    }
}

impl RofiContext {
    /// Builds the context from a decoded environment and the invocation
    /// arguments after the program's own path.
    pub fn from_parts(env: RofiEnv, args: &Vec<String>) -> (r: RofiContext)
        ensures
            r.env == env,
            r.input@ == spec_join(args.deep_view()),
    {
        let input = join_args(args);
        RofiContext { env, input }
    }
}

/// The row lines of a message: each row's rendering, in sequence order,
/// with no separator beyond each row's own newline.
pub open spec fn spec_rows_render(rows: Seq<RowOption>) -> Seq<char>
    decreases rows.len(),
{
    if rows.len() == 0 {
        Seq::<char>::empty()
    } else {
        spec_rows_render(rows.drop_last()) + spec_row_render(rows.last())
    }
}

/// The message sent to the front-end: a mode-option block and the rows
/// to list, in order.
pub struct RofiMessage {
    /// The global display settings of this render cycle.
    pub opt: ModeOption,
    /// The selectable rows, in the order they are shown.
    pub row: Vec<RowOption>,
}

/// The complete message text: the mode-option block first — skipped
/// entirely when no field is set — then the row lines in order.
pub open spec fn spec_message_render(m: RofiMessage) -> Seq<char> {
    if spec_mode_is_empty(m.opt) {
        spec_rows_render(m.row@)
    } else {
        spec_mode_render(m.opt) + spec_rows_render(m.row@)
    }
}

impl RofiMessage {
    /// Assembles the full output buffer, to be written verbatim to
    /// standard output with no further framing.
    #[verifier::loop_isolation(false)]
    pub fn render(&self) -> (r: String)
        ensures
            r@ == spec_message_render(*self),
    {
        let mut out = String::new();
        if !self.opt.is_empty() {
            let block = self.opt.render();
            out.append(block.as_str());
        }
        let mut i: usize = 0;
        while i < self.row.len()
            invariant
                i <= self.row.len(),
                out@ == (if spec_mode_is_empty(self.opt) {
                    spec_rows_render(self.row@.take(i as int))
                } else {
                    spec_mode_render(self.opt) + spec_rows_render(self.row@.take(i as int))
                }),
            decreases self.row.len() - i,
        {
            let line = self.row[i].render();
            out.append(line.as_str());
            proof {
                let p = self.row@.take(i as int);
                let p2 = self.row@.take(i + 1 as int);
                assert(p2.drop_last() =~= p);
                assert(p2.last() == self.row@[i as int]);
            }
            i = i + 1;
        }
        proof {
            assert(self.row@.take(self.row.len() as int) =~= self.row@);
        }
        out
    }
}

/// An all-absent mode-option block contributes nothing to the assembled
/// message: the assembler skips the block as a whole rather than writing
/// its bare terminating newline.
pub proof fn lemma_empty_opts_skipped(m: RofiMessage)
    requires
        spec_mode_is_empty(m.opt),
    ensures
        spec_message_render(m) == spec_rows_render(m.row@),
{
}

} // verus!
