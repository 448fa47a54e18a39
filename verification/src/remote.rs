use vstd::prelude::*;
use crate::entry::opt_view;
use crate::text::{dec_str, u64_to_string};
use vstd::string::StringExecFns;

verus! {

/// How to reach a remote host: the target, and optional port, identity file
/// and jump host.
#[derive(Debug, Clone)]
pub struct SshOpts {
    pub target: String,
    pub port: Option<u16>,
    pub key: Option<String>,
    pub jump: Option<String>,
}

/// The base ssh argument list an option set expands to:
/// `[-p PORT] [-i KEY] [-J JUMP] TARGET`.
pub open spec fn ssh_args_spec(o: SshOpts) -> Seq<Seq<char>> {
    (match o.port {
        Some(p) => seq!["-p"@, dec_str(p as nat)],
        None => Seq::empty(),
    }) + (match o.key {
        Some(k) => seq!["-i"@, k@],
        None => Seq::empty(),
    }) + (match o.jump {
        Some(j) => seq!["-J"@, j@],
        None => Seq::empty(),
    }) + seq![o.target@]
}

/// Build the base ssh arguments: port, identity file and jump host when
/// set, then the target.
pub fn ssh_base_args(opts: &SshOpts) -> (v: Vec<String>)
    ensures
        v.deep_view() == ssh_args_spec(*opts),
{
    let mut args: Vec<String> = Vec::new();
    match &opts.port {
        Some(port) => {
            args.push(String::from_str("-p"));
            args.push(u64_to_string(*port as u64));
        },
        None => {},
    }
    match &opts.key {
        Some(key) => {
            args.push(String::from_str("-i"));
            args.push(key.clone());
        },
        None => {},
    }
    match &opts.jump {
        Some(jump) => {
            args.push(String::from_str("-J"));
            args.push(jump.clone());
        },
        None => {},
    }
    args.push(opts.target.clone());
    proof {
        assert(args.deep_view() =~= ssh_args_spec(*opts));
    }
    args
}

/// What the arguments after `ssh TARGET` ask for.
#[derive(Debug)]
pub enum SshAction {
    /// Tail a remote file.
    File { path: String },
    /// Stream a remote container's logs, optionally a file inside it.
    Docker { prefix: String, file: Option<String> },
    /// No arguments were given.
    MissingArgs,
    /// `docker` was named without a container.
    MissingContainer,
}

/// Decide what the ssh subcommand's trailing arguments ask for: `docker
/// PREFIX [FILE]` streams a container, a single path tails a remote file,
/// and too few arguments are reported as such.
pub fn classify_ssh_args(args: &Vec<String>) -> (r: SshAction)
    ensures
        args@.len() == 0 ==> r is MissingArgs,
        args@.len() > 0 && args@[0]@ != "docker"@ ==> (r matches SshAction::File { path } && path@
            == args@[0]@),
        args@.len() == 1 && args@[0]@ == "docker"@ ==> r is MissingContainer,
        args@.len() >= 2 && args@[0]@ == "docker"@ ==> (r matches SshAction::Docker {
            prefix,
            file,
        } && prefix@ == args@[1]@ && opt_view(file) == (if args@.len() >= 3 {
            Some(args@[2]@)
        } else {
            None
        })),
{
    if args.len() == 0 {
        return SshAction::MissingArgs;
    }
    let docker = String::from_str("docker");
    if args[0].eq(&docker) {
        if args.len() < 2 {
            SshAction::MissingContainer
        } else {
            let file = if args.len() >= 3 {
                Some(args[2].clone())
            } else {
                None
            };
            SshAction::Docker { prefix: args[1].clone(), file }
        }
    } else {
        SshAction::File { path: args[0].clone() }
    }
}

} // verus!
