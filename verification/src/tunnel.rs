//! The static definition of one tunnel, and the command line that opens it.

use vstd::prelude::*;
use vstd::string::*;

verus! {

/// The highest port number a forward may name.
pub const MAX_PORT: u32 = 65535;

/// Configuration for an SSH tunnel to a remote host.
#[derive(Clone, Debug)]
pub struct Tunnel {
    /// The name of the tunnel, by which it is looked up.
    pub name: String,
    /// The port to open on the local machine.
    pub local_port: u32,
    /// The port to tunnel to through the ssh connection.
    pub away_port: u32,
    /// The host to tunnel to through the ssh connection.
    pub away_host: String,
    /// The ssh target.
    pub target: String,
    /// An AWS profile to use.
    pub aws_profile: Option<String>,
    /// An AWS region to use.
    pub aws_region: Option<String>,
}

/// Whether `port` lies in the range of usable ports, `1..=65535`.
pub open spec fn port_in_range(port: u32) -> bool {
    1 <= port <= MAX_PORT
}

/// The character that stands for the digit `d`, for `d` below ten.
pub open spec fn digit_char(d: nat) -> char {
    if d == 0 {
        '0'
    } else if d == 1 {
        '1'
    } else if d == 2 {
        '2'
    } else if d == 3 {
        '3'
    } else if d == 4 {
        '4'
    } else if d == 5 {
        '5'
    } else if d == 6 {
        '6'
    } else if d == 7 {
        '7'
    } else if d == 8 {
        '8'
    } else {
        '9'
    }
}

/// The decimal numeral of `n`: no sign, no leading zero, `"0"` for zero.
pub open spec fn decimal(n: nat) -> Seq<char>
    decreases n,
{
    if n < 10 {
        seq![digit_char(n)]
    } else {
        decimal(n / 10).push(digit_char(n % 10))
    }
}

/// The text of the forward that `ssh -L` takes: local port, remote host and
/// remote port, separated by colons.
pub open spec fn forward_text(local_port: u32, away_host: Seq<char>, away_port: u32) -> Seq<char> {
    decimal(local_port as nat) + seq![':'] + away_host + seq![':'] + decimal(away_port as nat)
}

/// The views of a sequence of strings, in order.
pub open spec fn texts(strings: Seq<String>) -> Seq<Seq<char>> {
    strings.map_values(|s: String| s@)
}

/// The views of a sequence of pairs of strings, in order.
pub open spec fn text_pairs(pairs: Seq<(String, String)>) -> Seq<(Seq<char>, Seq<char>)> {
    pairs.map_values(|p: (String, String)| (p.0@, p.1@))
}

/// A command to run: the program, its arguments, what to add to its
/// environment, and whether the process is to be killed when its handle is
/// dropped.
#[derive(Clone, Debug)]
pub struct TunnelCommand {
    pub program: String,
    pub arguments: Vec<String>,
    pub environment: Vec<(String, String)>,
    pub kill_on_drop: bool,
}

/// What a command holds.
pub struct CommandView {
    pub program: Seq<char>,
    pub arguments: Seq<Seq<char>>,
    pub environment: Seq<(Seq<char>, Seq<char>)>,
    pub kill_on_drop: bool,
}

impl View for TunnelCommand {
    type V = CommandView;

    open spec fn view(&self) -> CommandView {
        CommandView {
            program: self.program@,
            arguments: texts(self.arguments@),
            environment: text_pairs(self.environment@),
            kill_on_drop: self.kill_on_drop,
        }
    }
}

/// The one-character text of a digit.
fn digit_str(d: u32) -> (text: &'static str)
    requires
        d < 10,
    ensures
        text@ == seq![digit_char(d as nat)],
{
    proof {
        reveal_strlit("0");
        reveal_strlit("1");
        reveal_strlit("2");
        reveal_strlit("3");
        reveal_strlit("4");
        reveal_strlit("5");
        reveal_strlit("6");
        reveal_strlit("7");
        reveal_strlit("8");
        reveal_strlit("9");
    }
    let text = if d == 0 {
        "0"
    } else if d == 1 {
        "1"
    } else if d == 2 {
        "2"
    } else if d == 3 {
        "3"
    } else if d == 4 {
        "4"
    } else if d == 5 {
        "5"
    } else if d == 6 {
        "6"
    } else if d == 7 {
        "7"
    } else if d == 8 {
        "8"
    } else {
        "9"
    };
    assert(text@ =~= seq![digit_char(d as nat)]);
    text
}

/// Appends the decimal numeral of `n` to `out`.
pub fn append_decimal(out: &mut String, n: u32)
    ensures
        final(out)@ == old(out)@ + decimal(n as nat),
    decreases n,
{
    if n >= 10 {
        append_decimal(out, n / 10);
    }
    out.append(digit_str(n % 10));
    assert(out@ =~= old(out)@ + decimal(n as nat));
}

impl Tunnel {
    /// What a loaded definition must satisfy: a name, a host and a target
    /// that are not empty, and both ports within range.
    pub open spec fn well_formed(&self) -> bool {
        &&& self.name@.len() > 0
        &&& self.away_host@.len() > 0
        &&& self.target@.len() > 0
        &&& port_in_range(self.local_port)
        &&& port_in_range(self.away_port)
    }

    /// Tests [`Tunnel::well_formed`].
    pub fn is_well_formed(&self) -> (ok: bool)
        ensures
            ok == self.well_formed(),
    {
        self.name.as_str().unicode_len() > 0 && self.away_host.as_str().unicode_len() > 0
            && self.target.as_str().unicode_len() > 0 && 1 <= self.local_port
            && self.local_port <= MAX_PORT && 1 <= self.away_port && self.away_port <= MAX_PORT
    }

    /// The forward this tunnel asks of ssh, as [`forward_text`] writes it.
    pub open spec fn spec_forward(&self) -> Seq<char> {
        forward_text(self.local_port, self.away_host@, self.away_port)
    }

    /// The argument that follows `-L`, for example `33006:db.internal:3306`.
    pub fn forward(&self) -> (text: String)
        ensures
            text@ == self.spec_forward(),
    {
        proof {
            reveal_strlit(":");
        }
        let mut text = String::new();
        append_decimal(&mut text, self.local_port);
        text.append(":");
        text.append(self.away_host.as_str());
        text.append(":");
        append_decimal(&mut text, self.away_port);
        assert(text@ =~= self.spec_forward());
        text
    }

    /// The arguments of the ssh command, in order: the option `-L`, the
    /// forward, and the target.
    pub open spec fn spec_arguments(&self) -> Seq<Seq<char>> {
        seq!["-L"@, self.spec_forward(), self.target@]
    }

    /// The arguments to run ssh with so that it opens this tunnel.
    pub fn arguments(&self) -> (args: Vec<String>)
        ensures
            texts(args@) == self.spec_arguments(),
    {
        let mut args: Vec<String> = Vec::new();
        args.push(String::from_str("-L"));
        args.push(self.forward());
        args.push(self.target.clone());
        assert(texts(args@) =~= self.spec_arguments());
        args
    }

    /// The environment of the ssh command: `AWS_REGION` where a region is
    /// set, then `AWS_PROFILE` where a profile is set.
    pub open spec fn spec_environment(&self) -> Seq<(Seq<char>, Seq<char>)> {
        let region = match self.aws_region {
            Some(region) => seq![("AWS_REGION"@, region@)],
            None => seq![],
        };
        let profile = match self.aws_profile {
            Some(profile) => seq![("AWS_PROFILE"@, profile@)],
            None => seq![],
        };
        region + profile
    }

    /// The variables to add to the environment of the ssh command.
    pub fn environment(&self) -> (vars: Vec<(String, String)>)
        ensures
            text_pairs(vars@) == self.spec_environment(),
    {
        let mut vars: Vec<(String, String)> = Vec::new();
        if let Some(region) = &self.aws_region {
            vars.push((String::from_str("AWS_REGION"), region.clone()));
        }
        if let Some(profile) = &self.aws_profile {
            vars.push((String::from_str("AWS_PROFILE"), profile.clone()));
        }
        assert(text_pairs(vars@) =~= self.spec_environment());
        vars
    }

    /// The command that opens this tunnel: `ssh` with
    /// [`Tunnel::spec_arguments`] and [`Tunnel::spec_environment`], killed
    /// when its handle is dropped so that no process outlives its session.
    pub open spec fn spec_open(&self) -> CommandView {
        CommandView {
            program: "ssh"@,
            arguments: self.spec_arguments(),
            environment: self.spec_environment(),
            kill_on_drop: true,
        }
    }

    /// The command to run so that this tunnel opens. The tunnel stays open
    /// for as long as the process runs.
    pub fn open(&self) -> (command: TunnelCommand)
        ensures
            command@ == self.spec_open(),
    {
        TunnelCommand {
            program: String::from_str("ssh"),
            arguments: self.arguments(),
            environment: self.environment(),
            kill_on_drop: true,
        }
    }
}

} // verus!
