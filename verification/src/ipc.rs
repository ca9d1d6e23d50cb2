//! Control-socket protocol: the newline-terminated JSON command lines sent
//! to the player.
//!
//! The library frames the exact bytes itself; the socket I/O around them is
//! a collaborator's job. The frame assumes its arguments need no JSON
//! escaping, which the protocol's fixed tokens and decimal numbers do not.

use vstd::prelude::*;
use crate::text::{i64_digits, i64_to_string, u64_digits, u64_to_string};

verus! {

/// One element of a command array.
pub enum CommandArg {
    Text(String),
    Number(u64),
}

/// The abstract value of a command element.
pub enum ArgView {
    Text(Seq<char>),
    Number(nat),
}

impl View for CommandArg {
    type V = ArgView;

    open spec fn view(&self) -> ArgView {
        match self {
            CommandArg::Text(s) => ArgView::Text(s@),
            CommandArg::Number(n) => ArgView::Number(*n as nat),
        }
    }
}

/// JSON form of one command element: text quoted, numbers in decimal.
pub open spec fn spec_arg_json(a: ArgView) -> Seq<char> {
    match a {
        ArgView::Text(s) => seq!['"'] + s + seq!['"'],
        ArgView::Number(n) => u64_digits(n),
    }
}

/// The elements' JSON forms, comma-separated.
pub open spec fn spec_args_json(args: Seq<ArgView>) -> Seq<char>
    decreases args.len(),
{
    if args.len() == 0 {
        Seq::empty()
    } else if args.len() == 1 {
        spec_arg_json(args[0])
    } else {
        spec_args_json(args.drop_last()) + seq![','] + spec_arg_json(args.last())
    }
}

/// One whole command line: `{"command":[...]}` and a newline.
pub open spec fn spec_command_line(args: Seq<ArgView>) -> Seq<char> {
    "{\"command\":["@ + spec_args_json(args) + "]}\n"@
}

fn arg_json(a: &CommandArg) -> (r: String)
    ensures
        r@ == spec_arg_json(a@),
{
    proof {
        reveal_strlit("\"");
        assert("\""@ =~= seq!['"']);
    }
    match a {
        CommandArg::Text(t) => {
            let mut s = String::from_str("\"");
            s.append(t.as_str());
            s.append("\"");
            proof {
                assert(s@ =~= seq!['"'] + t@ + seq!['"']);
            }
            s
        },
        CommandArg::Number(m) => u64_to_string(*m),
    }
}

/// Frame a command array as the newline-terminated JSON line the player's
/// control socket expects.
pub fn encode_command(args: &Vec<CommandArg>) -> (r: String)
    ensures
        r@ == spec_command_line(args@.map_values(|a: CommandArg| a@)),
{
    let ghost av = args@.map_values(|a: CommandArg| a@);
    let mut s = String::from_str("{\"command\":[");
    let n = args.len();
    let mut i: usize = 0;
    proof {
        assert(av.take(0) =~= Seq::<ArgView>::empty());
        assert(s@ =~= "{\"command\":["@ + spec_args_json(av.take(0)));
    }
    while i < n
        invariant
            n == args@.len(),
            av == args@.map_values(|a: CommandArg| a@),
            i <= n,
            s@ == "{\"command\":["@ + spec_args_json(av.take(i as int)),
        decreases n - i,
    {
        let ghost prev = s@;
        if i > 0 {
            s.append(",");
        }
        let ghost mid = s@;
        let piece = arg_json(&args[i]);
        s.append(piece.as_str());
        proof {
            reveal_strlit(",");
            assert(","@ =~= seq![',']);
            assert(av.take(i + 1).drop_last() =~= av.take(i as int));
            assert(av.take(i + 1).last() == av[i as int]);
            assert(av[i as int] == args@[i as int]@);
            assert(s@ == mid + spec_arg_json(av[i as int]));
            if i == 0 {
                assert(spec_args_json(av.take(1)) == spec_arg_json(av[0]));
                assert(spec_args_json(av.take(0)) =~= Seq::<char>::empty());
                assert(s@ =~= "{\"command\":["@ + spec_args_json(av.take(i + 1)));
            } else {
                assert(spec_args_json(av.take(i + 1)) == spec_args_json(av.take(i as int))
                    + seq![','] + spec_arg_json(av[i as int]));
                assert(s@ =~= "{\"command\":["@ + spec_args_json(av.take(i + 1)));
            }
        }
        i = i + 1;
    }
    s.append("]}\n");
    proof {
        assert(av.take(n as int) =~= av);
    }
    s
}

/// The three subscription lines sent once per playback: observe the
/// position, the pause flag, and the volume, with observer ids 1 to 3.
pub fn observe_commands() -> (r: Vec<String>)
    ensures
        r@.len() == 3,
        r@[0]@ == spec_command_line(
            seq![
                ArgView::Text("observe_property"@),
                ArgView::Number(1),
                ArgView::Text("percent-pos"@),
            ],
        ),
        r@[1]@ == spec_command_line(
            seq![ArgView::Text("observe_property"@), ArgView::Number(2), ArgView::Text("pause"@)],
        ),
        r@[2]@ == spec_command_line(
            seq![ArgView::Text("observe_property"@), ArgView::Number(3), ArgView::Text("volume"@)],
        ),
{
    let mut out: Vec<String> = Vec::new();

    let mut args: Vec<CommandArg> = Vec::new();
    args.push(CommandArg::Text(String::from_str("observe_property")));
    args.push(CommandArg::Number(1));
    args.push(CommandArg::Text(String::from_str("percent-pos")));
    proof {
        assert(args@.map_values(|a: CommandArg| a@) =~= seq![
            ArgView::Text("observe_property"@),
            ArgView::Number(1),
            ArgView::Text("percent-pos"@),
        ]);
    }
    out.push(encode_command(&args));

    let mut args: Vec<CommandArg> = Vec::new();
    args.push(CommandArg::Text(String::from_str("observe_property")));
    args.push(CommandArg::Number(2));
    args.push(CommandArg::Text(String::from_str("pause")));
    proof {
        assert(args@.map_values(|a: CommandArg| a@) =~= seq![
            ArgView::Text("observe_property"@),
            ArgView::Number(2),
            ArgView::Text("pause"@),
        ]);
    }
    out.push(encode_command(&args));

    let mut args: Vec<CommandArg> = Vec::new();
    args.push(CommandArg::Text(String::from_str("observe_property")));
    args.push(CommandArg::Number(3));
    args.push(CommandArg::Text(String::from_str("volume")));
    proof {
        assert(args@.map_values(|a: CommandArg| a@) =~= seq![
            ArgView::Text("observe_property"@),
            ArgView::Number(3),
            ArgView::Text("volume"@),
        ]);
    }
    out.push(encode_command(&args));

    out
}

/// The line that sets the pause flag: `yes` pauses, `no` resumes.
pub fn pause_command(pause: bool) -> (r: String)
    ensures
        r@ == spec_command_line(
            seq![
                ArgView::Text("set_property"@),
                ArgView::Text("pause"@),
                ArgView::Text(if pause { "yes"@ } else { "no"@ }),
            ],
        ),
{
    let mut args: Vec<CommandArg> = Vec::new();
    args.push(CommandArg::Text(String::from_str("set_property")));
    args.push(CommandArg::Text(String::from_str("pause")));
    args.push(CommandArg::Text(String::from_str(if pause { "yes" } else { "no" })));
    proof {
        assert(args@.map_values(|a: CommandArg| a@) =~= seq![
            ArgView::Text("set_property"@),
            ArgView::Text("pause"@),
            ArgView::Text(if pause { "yes"@ } else { "no"@ }),
        ]);
    }
    encode_command(&args)
}

/// The line that changes the volume by `delta` percent.
pub fn volume_command(delta: i64) -> (r: String)
    requires
        delta > i64::MIN,
    ensures
        r@ == spec_command_line(
            seq![
                ArgView::Text("add"@),
                ArgView::Text("volume"@),
                ArgView::Text(i64_digits(delta as int)),
            ],
        ),
{
    let mut args: Vec<CommandArg> = Vec::new();
    args.push(CommandArg::Text(String::from_str("add")));
    args.push(CommandArg::Text(String::from_str("volume")));
    args.push(CommandArg::Text(i64_to_string(delta)));
    proof {
        assert(args@.map_values(|a: CommandArg| a@) =~= seq![
            ArgView::Text("add"@),
            ArgView::Text("volume"@),
            ArgView::Text(i64_digits(delta as int)),
        ]);
    }
    encode_command(&args)
}

/// The line that seeks by `seconds`, relative to the current position.
pub fn seek_command(seconds: i64) -> (r: String)
    requires
        seconds > i64::MIN,
    ensures
        r@ == spec_command_line(
            seq![
                ArgView::Text("seek"@),
                ArgView::Text(i64_digits(seconds as int)),
                ArgView::Text("relative"@),
            ],
        ),
{
    let mut args: Vec<CommandArg> = Vec::new();
    args.push(CommandArg::Text(String::from_str("seek")));
    args.push(CommandArg::Text(i64_to_string(seconds)));
    args.push(CommandArg::Text(String::from_str("relative")));
    proof {
        assert(args@.map_values(|a: CommandArg| a@) =~= seq![
            ArgView::Text("seek"@),
            ArgView::Text(i64_digits(seconds as int)),
            ArgView::Text("relative"@),
        ]);
    }
    encode_command(&args)
}

/// The line that asks the player to quit.
pub fn quit_command() -> (r: String)
    ensures
        r@ == spec_command_line(seq![ArgView::Text("quit"@)]),
{
    let mut args: Vec<CommandArg> = Vec::new();
    args.push(CommandArg::Text(String::from_str("quit")));
    proof {
        assert(args@.map_values(|a: CommandArg| a@) =~= seq![ArgView::Text("quit"@)]);
    }
    encode_command(&args)
}

/// The control-socket path of the instance with the given process id,
/// distinct per instance to avoid collisions.
pub fn pid_socket_path(pid: u32) -> (r: String)
    ensures
        r@ == "/tmp/maboroshi-"@ + u64_digits(pid as nat) + ".sock"@,
{
    let mut s = String::from_str("/tmp/maboroshi-");
    s.append(u64_to_string(pid as u64).as_str());
    s.append(".sock");
    s
}

/// The socket path the player actually uses: a configured path is kept,
/// but the stock default is replaced by a per-process path so that two
/// instances never race for one socket.
pub fn effective_socket_path(configured: String, pid: u32) -> (r: String)
    ensures
        r@ == (if configured@ == "/tmp/maboroshi.sock"@ {
            "/tmp/maboroshi-"@ + u64_digits(pid as nat) + ".sock"@
        } else {
            configured@
        }),
{
    if crate::text::str_eq(configured.as_str(), "/tmp/maboroshi.sock") {
        pid_socket_path(pid)
    } else {
        configured
    }
}

} // verus!
