//! The command line: `rp [verbose] genkey|pubkey|exchange [ARGS]...`.
//!
//! Words are read left to right. Where a word is to be read as a socket
//! address, the caller hands in, for each word, its reading as one (`None`
//! where it is none); all else is decided here.

use vstd::prelude::*;
use crate::addr::SockAddr;
use crate::exchange::{
    ExchangeOptions, ExchangePeer, OptionsView, PeerView,
};

verus! {

#[derive(PartialEq, Eq, Structural, Clone, Copy, Debug)]
pub enum CommandType {
    GenKey,
    PubKey,
    Exchange,
}

pub enum Command {
    GenKey { private_keys_dir: String },
    PubKey { private_keys_dir: String, public_keys_dir: String },
    Exchange(ExchangeOptions),
}

pub enum CommandView {
    GenKey { private_keys_dir: Seq<char> },
    PubKey { private_keys_dir: Seq<char>, public_keys_dir: Seq<char> },
    Exchange(OptionsView),
}

impl View for Command {
    type V = CommandView;

    open spec fn view(&self) -> CommandView {
        match self {
            Command::GenKey { private_keys_dir } => CommandView::GenKey {
                private_keys_dir: private_keys_dir@,
            },
            Command::PubKey { private_keys_dir, public_keys_dir } => CommandView::PubKey {
                private_keys_dir: private_keys_dir@,
                public_keys_dir: public_keys_dir@,
            },
            Command::Exchange(o) => CommandView::Exchange(o@),
        }
    }
}

pub struct Cli {
    pub verbose: bool,
    pub command: Option<Command>,
}

pub struct CliView {
    pub verbose: bool,
    pub command: Option<CommandView>,
}

pub open spec fn opt_command_view(c: Option<Command>) -> Option<CommandView> {
    match c {
        Some(x) => Some(x@),
        None => None,
    }
}

impl View for Cli {
    type V = CliView;

    open spec fn view(&self) -> CliView {
        CliView { verbose: self.verbose, command: opt_command_view(self.command) }
    }
}

pub open spec fn usage_text(command: Option<CommandType>) -> Seq<char> {
    match command {
        Some(CommandType::GenKey) => "\nUsage: rp genkey PRIVATE_KEYS_DIR"@,
        Some(CommandType::PubKey) => "\nUsage: rp pubkey PRIVATE_KEYS_DIR PUBLIC_KEYS_DIR"@,
        Some(CommandType::Exchange) => "\nUsage: rp exchange PRIVATE_KEYS_DIR [dev <device>] [listen <ip>:<port>] [peer PUBLIC_KEYS_DIR [endpoint <ip>:<port>] [persistent-keepalive <interval>] [allowed-ips <ip1>/<cidr1>[,<ip2>/<cidr2>]...]]..."@,
        None => "\nUsage: rp [explain] [verbose] genkey|pubkey|exchange [ARGS]..."@,
    }
}

/// The message of a command-line error: the note, then the usage line of the
/// command it concerns.
pub open spec fn fatal_text(note: Seq<char>, command: Option<CommandType>) -> Seq<char> {
    note + usage_text(command)
}

/// A command-line error: `note` followed by the usage of `command`.
pub fn fatal<T>(note: &str, command: Option<CommandType>) -> (r: Result<T, String>)
    ensures
        r is Err,
        r->Err_0@ == fatal_text(note@, command),
{
    let usage = match command {
        Some(CommandType::GenKey) => "\nUsage: rp genkey PRIVATE_KEYS_DIR",
        Some(CommandType::PubKey) => "\nUsage: rp pubkey PRIVATE_KEYS_DIR PUBLIC_KEYS_DIR",
        Some(CommandType::Exchange) => "\nUsage: rp exchange PRIVATE_KEYS_DIR [dev <device>] [listen <ip>:<port>] [peer PUBLIC_KEYS_DIR [endpoint <ip>:<port>] [persistent-keepalive <interval>] [allowed-ips <ip1>/<cidr1>[,<ip2>/<cidr2>]...]]...",
        None => "\nUsage: rp [explain] [verbose] genkey|pubkey|exchange [ARGS]...",
    };
    let mut s = String::from_str(note);
    s.append(usage);
    Err(s)
}

fn is_word(arg: &String, word: &str) -> (r: bool)
    ensures
        r == (arg@ == word@),
{
    let w = String::from_str(word);
    *arg == w
}

fn prefixed(prefix: &str, rest: &String) -> (r: String)
    ensures
        r@ == prefix@ + rest@,
{
    let mut s = String::from_str(prefix);
    s.append(rest.as_str());
    s
}

pub open spec fn is_digit(c: char) -> bool {
    '0' <= c && c <= '9'
}

/// Value of a run of decimal digits.
pub open spec fn digits_value(s: Seq<char>) -> nat
    decreases s.len(),
{
    if s.len() == 0 {
        0
    } else {
        digits_value(s.drop_last()) * 10 + ((s.last() as u32 - '0' as u32) as nat)
    }
}

/// `s` without the `+` that may lead it.
pub open spec fn unsigned_digits(s: Seq<char>) -> Seq<char> {
    if s.len() > 0 && s[0] == '+' {
        s.subrange(1, s.len() as int)
    } else {
        s
    }
}

/// The `u32` that `str::parse` reads from `s`: an optional `+`, then one or
/// more decimal digits whose value fits.
pub open spec fn u32_text_value(s: Seq<char>) -> Option<u32> {
    let d = unsigned_digits(s);
    if d.len() > 0 && (forall|i: int| 0 <= i < d.len() ==> is_digit(#[trigger] d[i]))
        && digits_value(d) <= u32::MAX {
        Some(digits_value(d) as u32)
    } else {
        None
    }
}

proof fn lemma_digits_prefix_grow(d: Seq<char>, i: int, j: int)
    requires
        0 <= i <= j <= d.len(),
        forall|k: int| 0 <= k < d.len() ==> is_digit(#[trigger] d[k]),
    ensures
        digits_value(d.subrange(0, i)) <= digits_value(d.subrange(0, j)),
    decreases j - i,
{
    if i < j {
        lemma_digits_prefix_grow(d, i, j - 1);
        assert(d.subrange(0, j).drop_last() =~= d.subrange(0, j - 1));
    }
}

/// Reads a `u32` as `str::parse` does.
pub fn parse_u32(s: &String) -> (r: Option<u32>)
    ensures
        r == u32_text_value(s@),
{
    let t = s.as_str();
    let n = t.unicode_len();
    let mut start: usize = 0;
    if n > 0 && t.get_char(0) == '+' {
        start = 1;
    }
    let ghost d = unsigned_digits(s@);
    assert(d =~= s@.subrange(start as int, n as int));
    if start == n {
        return None;
    }
    let mut acc: u64 = 0;
    let mut i: usize = start;
    while i < n
        invariant
            start <= i <= n,
            n == s@.len(),
            t@ == s@,
            d == unsigned_digits(s@),
            d =~= s@.subrange(start as int, n as int),
            forall|k: int| 0 <= k < i - start ==> is_digit(#[trigger] d[k]),
            acc == digits_value(d.subrange(0, i - start)),
            acc <= u32::MAX,
        decreases n - i,
    {
        let c = t.get_char(i);
        assert(d[i - start] == c);
        if !('0' <= c && c <= '9') {
            assert(!is_digit(d[i - start]));
            assert(u32_text_value(s@) is None);
            return None;
        }
        let next = acc * 10 + (c as u32 - '0' as u32) as u64;
        assert(d.subrange(0, i + 1 - start).drop_last() =~= d.subrange(0, i - start));
        assert(d.subrange(0, i + 1 - start).last() == c);
        assert(next == digits_value(d.subrange(0, i + 1 - start)));
        if next > u32::MAX as u64 {
            proof {
                if forall|k: int| 0 <= k < d.len() ==> is_digit(#[trigger] d[k]) {
                    lemma_digits_prefix_grow(d, i + 1 - start, d.len() as int);
                    assert(d.subrange(0, d.len() as int) =~= d);
                }
            }
            assert(u32_text_value(s@) is None);
            return None;
        }
        acc = next;
        i = i + 1;
    }
    assert(d.subrange(0, i - start) =~= d);
    Some(acc as u32)
}

/// The options that follow a peer's key directory, read from word `i` on,
/// up to the next `peer` word or the end: the peer so far, and where reading
/// stopped.
pub open spec fn peer_options(
    args: Seq<String>,
    addrs: Seq<Option<SockAddr>>,
    i: int,
    p: PeerView,
) -> Result<(PeerView, int), Seq<char>>
    decreases args.len() - i,
{
    if i < 0 || i >= args.len() || args[i]@ == "peer"@ {
        Ok((p, i))
    } else if args[i]@ == "endpoint"@ {
        if i + 1 >= args.len() {
            Err(fatal_text("listen option requires parameter"@, Some(CommandType::Exchange)))
        } else {
            match addrs[i + 1] {
                Some(a) => peer_options(
                    args,
                    addrs,
                    i + 2,
                    PeerView {
                        public_keys_dir: p.public_keys_dir,
                        endpoint: Some(a@),
                        persistent_keepalive: p.persistent_keepalive,
                        allowed_ips: p.allowed_ips,
                    },
                ),
                None => Err(
                    fatal_text("invalid parameter for listen option"@, Some(CommandType::Exchange)),
                ),
            }
        }
    } else if args[i]@ == "persistent-keepalive"@ {
        if i + 1 >= args.len() {
            Err(
                fatal_text(
                    "persistent-keepalive option requires parameter"@,
                    Some(CommandType::Exchange),
                ),
            )
        } else {
            match u32_text_value(args[i + 1]@) {
                Some(k) => peer_options(
                    args,
                    addrs,
                    i + 2,
                    PeerView {
                        public_keys_dir: p.public_keys_dir,
                        endpoint: p.endpoint,
                        persistent_keepalive: Some(k),
                        allowed_ips: p.allowed_ips,
                    },
                ),
                None => Err(
                    fatal_text(
                        "invalid parameter for persistent-keepalive option"@,
                        Some(CommandType::Exchange),
                    ),
                ),
            }
        }
    } else if args[i]@ == "allowed-ips"@ {
        if i + 1 >= args.len() {
            Err(fatal_text("allowed-ips option requires parameter"@, Some(CommandType::Exchange)))
        } else {
            peer_options(
                args,
                addrs,
                i + 2,
                PeerView {
                    public_keys_dir: p.public_keys_dir,
                    endpoint: p.endpoint,
                    persistent_keepalive: p.persistent_keepalive,
                    allowed_ips: Some(args[i + 1]@),
                },
            )
        }
    } else {
        Err(fatal_text("Unknown option "@ + args[i]@, Some(CommandType::Exchange)))
    }
}

/// A peer read from word `i` on (the word after `peer`): its key directory,
/// then its options. Gives the peer and the index of the first word not read.
pub open spec fn peer_spec(args: Seq<String>, addrs: Seq<Option<SockAddr>>, i: int) -> Result<
    (PeerView, int),
    Seq<char>,
> {
    if i < 0 || i >= args.len() {
        Err(
            fatal_text(
                "Required positional argument: PUBLIC_KEYS_DIR"@,
                Some(CommandType::Exchange),
            ),
        )
    } else {
        peer_options(
            args,
            addrs,
            i + 1,
            PeerView {
                public_keys_dir: args[i]@,
                endpoint: None,
                persistent_keepalive: None,
                allowed_ips: None,
            },
        )
    }
}

impl ExchangePeer {
    /// Reads one peer from `args`, starting at word `pos`, the one after the
    /// word `peer`. Reading stops at the next `peer` word or at the end;
    /// the second part of the result is the index where it stopped.
    pub fn parse(args: &Vec<String>, addrs: &Vec<Option<SockAddr>>, pos: usize) -> (r: Result<
        (ExchangePeer, usize),
        String,
    >)
        requires
            args.len() == addrs.len(),
        ensures
            match peer_spec(args@, addrs@, pos as int) {
                Ok((p, j)) => r is Ok && r->Ok_0.0@ == p && r->Ok_0.1 == j,
                Err(e) => r is Err && r->Err_0@ == e,
            },
            r is Ok ==> pos < r->Ok_0.1 <= args.len(),
    {
        if pos >= args.len() {
            return fatal("Required positional argument: PUBLIC_KEYS_DIR", Some(CommandType::Exchange));
        }
        let mut peer = ExchangePeer {
            public_keys_dir: args[pos].clone(),
            endpoint: None,
            persistent_keepalive: None,
            allowed_ips: None,
        };
        let mut i: usize = pos + 1;
        while i < args.len() && !is_word(&args[i], "peer")
            invariant
                pos < i <= args.len(),
                args.len() == addrs.len(),
                peer_spec(args@, addrs@, pos as int) == peer_options(args@, addrs@, i as int, peer@),
            decreases args.len() - i,
        {
            let x = &args[i];
            if is_word(x, "endpoint") {
                if i + 1 >= args.len() {
                    return fatal("listen option requires parameter", Some(CommandType::Exchange));
                }
                match &addrs[i + 1] {
                    Some(a) => {
                        peer.endpoint = Some(
                            SockAddr { ip: a.ip.clone(), v6: a.v6, scope_id: a.scope_id, port: a.port },
                        );
                    },
                    None => {
                        return fatal(
                            "invalid parameter for listen option",
                            Some(CommandType::Exchange),
                        );
                    },
                }
                i = i + 2;
            } else if is_word(x, "persistent-keepalive") {
                if i + 1 >= args.len() {
                    return fatal(
                        "persistent-keepalive option requires parameter",
                        Some(CommandType::Exchange),
                    );
                }
                match parse_u32(&args[i + 1]) {
                    Some(ka) => {
                        peer.persistent_keepalive = Some(ka);
                    },
                    None => {
                        return fatal(
                            "invalid parameter for persistent-keepalive option",
                            Some(CommandType::Exchange),
                        );
                    },
                }
                i = i + 2;
            } else if is_word(x, "allowed-ips") {
                if i + 1 >= args.len() {
                    return fatal("allowed-ips option requires parameter", Some(CommandType::Exchange));
                }
                peer.allowed_ips = Some(args[i + 1].clone());
                i = i + 2;
            } else {
                let note = prefixed("Unknown option ", x);
                return fatal(note.as_str(), Some(CommandType::Exchange));
            }
        }
        Ok((peer, i))
    }
}

/// The options of `exchange` read from word `i` on, into `o`.
pub open spec fn options_loop(
    args: Seq<String>,
    addrs: Seq<Option<SockAddr>>,
    i: int,
    o: OptionsView,
) -> Result<OptionsView, Seq<char>>
    decreases args.len() - i,
{
    if i < 0 || i >= args.len() {
        Ok(o)
    } else if args[i]@ == "dev"@ {
        if i + 1 >= args.len() {
            Err(fatal_text("dev option requires parameter"@, Some(CommandType::Exchange)))
        } else {
            options_loop(
                args,
                addrs,
                i + 2,
                OptionsView {
                    verbose: o.verbose,
                    private_keys_dir: o.private_keys_dir,
                    dev: Some(args[i + 1]@),
                    listen: o.listen,
                    peers: o.peers,
                },
            )
        }
    } else if args[i]@ == "listen"@ {
        if i + 1 >= args.len() {
            Err(fatal_text("listen option requires parameter"@, Some(CommandType::Exchange)))
        } else {
            match addrs[i + 1] {
                Some(a) => options_loop(
                    args,
                    addrs,
                    i + 2,
                    OptionsView {
                        verbose: o.verbose,
                        private_keys_dir: o.private_keys_dir,
                        dev: o.dev,
                        listen: Some(a@),
                        peers: o.peers,
                    },
                ),
                None => Err(
                    fatal_text("invalid parameter for listen option"@, Some(CommandType::Exchange)),
                ),
            }
        }
    } else if args[i]@ == "peer"@ {
        match peer_spec(args, addrs, i + 1) {
            Ok((p, j)) => if i < j <= args.len() {
                options_loop(
                    args,
                    addrs,
                    j,
                    OptionsView {
                        verbose: o.verbose,
                        private_keys_dir: o.private_keys_dir,
                        dev: o.dev,
                        listen: o.listen,
                        peers: o.peers.push(p),
                    },
                )
            } else {
                Ok(o)
            },
            Err(e) => Err(e),
        }
    } else {
        Err(fatal_text("Unknown option "@ + args[i]@, Some(CommandType::Exchange)))
    }
}

/// The arguments of `exchange`, read from word `i` to the end: the private
/// key directory, then the options.
pub open spec fn options_spec(args: Seq<String>, addrs: Seq<Option<SockAddr>>, i: int) -> Result<
    OptionsView,
    Seq<char>,
> {
    if i < 0 || i >= args.len() {
        Err(
            fatal_text(
                "Required positional argument: PRIVATE_KEYS_DIR"@,
                Some(CommandType::Exchange),
            ),
        )
    } else {
        options_loop(
            args,
            addrs,
            i + 1,
            OptionsView {
                verbose: false,
                private_keys_dir: args[i]@,
                dev: None,
                listen: None,
                peers: Seq::empty(),
            },
        )
    }
}

impl ExchangeOptions {
    /// Reads the arguments of `exchange` from word `pos` to the end.
    pub fn parse(args: &Vec<String>, addrs: &Vec<Option<SockAddr>>, pos: usize) -> (r: Result<
        ExchangeOptions,
        String,
    >)
        requires
            args.len() == addrs.len(),
        ensures
            match options_spec(args@, addrs@, pos as int) {
                Ok(o) => r is Ok && r->Ok_0@ == o,
                Err(e) => r is Err && r->Err_0@ == e,
            },
    {
        if pos >= args.len() {
            return fatal("Required positional argument: PRIVATE_KEYS_DIR", Some(CommandType::Exchange));
        }
        let mut options = ExchangeOptions {
            verbose: false,
            private_keys_dir: args[pos].clone(),
            dev: None,
            listen: None,
            peers: Vec::new(),
        };
        assert(options@.peers =~= Seq::<PeerView>::empty());
        let mut i: usize = pos + 1;
        while i < args.len()
            invariant
                pos < i <= args.len(),
                args.len() == addrs.len(),
                options_spec(args@, addrs@, pos as int) == options_loop(
                    args@,
                    addrs@,
                    i as int,
                    options@,
                ),
            decreases args.len() - i,
        {
            let x = &args[i];
            if is_word(x, "dev") {
                if i + 1 >= args.len() {
                    return fatal("dev option requires parameter", Some(CommandType::Exchange));
                }
                options.dev = Some(args[i + 1].clone());
                i = i + 2;
            } else if is_word(x, "listen") {
                if i + 1 >= args.len() {
                    return fatal("listen option requires parameter", Some(CommandType::Exchange));
                }
                match &addrs[i + 1] {
                    Some(a) => {
                        options.listen = Some(
                            SockAddr { ip: a.ip.clone(), v6: a.v6, scope_id: a.scope_id, port: a.port },
                        );
                    },
                    None => {
                        return fatal(
                            "invalid parameter for listen option",
                            Some(CommandType::Exchange),
                        );
                    },
                }
                i = i + 2;
            } else if is_word(x, "peer") {
                let (peer, j) = ExchangePeer::parse(args, addrs, i + 1)?;
                let ghost before = options@;
                options.peers.push(peer);
                assert(options@.peers =~= before.peers.push(peer@));
                i = j;
            } else {
                let note = prefixed("Unknown option ", x);
                return fatal(note.as_str(), Some(CommandType::Exchange));
            }
        }
        Ok(options)
    }
}

/// The command line read from word `i` on, with what was read before it.
pub open spec fn cli_loop(
    args: Seq<String>,
    addrs: Seq<Option<SockAddr>>,
    i: int,
    verbose: bool,
    command: Option<CommandView>,
) -> Result<CliView, Seq<char>>
    decreases args.len() - i,
{
    if i < 0 || i >= args.len() {
        if command is None {
            Err(fatal_text("No command supplied"@, None))
        } else {
            Ok(CliView { verbose, command })
        }
    } else if args[i]@ == "verbose"@ {
        cli_loop(args, addrs, i + 1, true, command)
    } else if args[i]@ == "genkey"@ {
        if command is Some {
            Err(fatal_text("Too many commands supplied"@, None))
        } else if i + 1 >= args.len() {
            Err(
                fatal_text(
                    "Required positional argument: PRIVATE_KEYS_DIR"@,
                    Some(CommandType::GenKey),
                ),
            )
        } else {
            cli_loop(
                args,
                addrs,
                i + 2,
                verbose,
                Some(CommandView::GenKey { private_keys_dir: args[i + 1]@ }),
            )
        }
    } else if args[i]@ == "pubkey"@ {
        if command is Some {
            Err(fatal_text("Too many commands supplied"@, None))
        } else if i + 1 >= args.len() {
            Err(
                fatal_text(
                    "Required positional argument: PRIVATE_KEYS_DIR"@,
                    Some(CommandType::PubKey),
                ),
            )
        } else if i + 2 >= args.len() {
            Err(
                fatal_text(
                    "Required positional argument: PUBLIC_KEYS_DIR"@,
                    Some(CommandType::PubKey),
                ),
            )
        } else {
            cli_loop(
                args,
                addrs,
                i + 3,
                verbose,
                Some(
                    CommandView::PubKey {
                        private_keys_dir: args[i + 1]@,
                        public_keys_dir: args[i + 2]@,
                    },
                ),
            )
        }
    } else if args[i]@ == "exchange"@ {
        if command is Some {
            Err(fatal_text("Too many commands supplied"@, None))
        } else {
            match options_spec(args, addrs, i + 1) {
                Ok(o) => Ok(CliView { verbose, command: Some(CommandView::Exchange(o)) }),
                Err(e) => Err(e),
            }
        }
    } else {
        Err(fatal_text("Unknown command "@ + args[i]@, None))
    }
}

/// The whole command line; its first word names the program and is passed
/// over.
pub open spec fn cli_spec(args: Seq<String>, addrs: Seq<Option<SockAddr>>) -> Result<
    CliView,
    Seq<char>,
> {
    cli_loop(args, addrs, 1, false, None)
}

impl Cli {
    /// Reads the whole command line. `addrs[i]` is the reading of `args[i]`
    /// as a socket address.
    pub fn parse(args: &Vec<String>, addrs: &Vec<Option<SockAddr>>) -> (r: Result<Cli, String>)
        requires
            args.len() == addrs.len(),
        ensures
            match cli_spec(args@, addrs@) {
                Ok(c) => r is Ok && r->Ok_0@ == c,
                Err(e) => r is Err && r->Err_0@ == e,
            },
    {
        let mut cli = Cli { verbose: false, command: None };
        let mut i: usize = 1;
        while i < args.len()
            invariant
                1 <= i,
                args.len() == addrs.len(),
                cli_spec(args@, addrs@) == cli_loop(
                    args@,
                    addrs@,
                    i as int,
                    cli.verbose,
                    opt_command_view(cli.command),
                ),
            decreases args.len() - i,
        {
            let x = &args[i];
            if is_word(x, "verbose") {
                cli.verbose = true;
                i = i + 1;
            } else if is_word(x, "genkey") {
                if cli.command.is_some() {
                    return fatal("Too many commands supplied", None);
                }
                if i + 1 >= args.len() {
                    return fatal(
                        "Required positional argument: PRIVATE_KEYS_DIR",
                        Some(CommandType::GenKey),
                    );
                }
                cli.command = Some(Command::GenKey { private_keys_dir: args[i + 1].clone() });
                i = i + 2;
            } else if is_word(x, "pubkey") {
                if cli.command.is_some() {
                    return fatal("Too many commands supplied", None);
                }
                if i + 1 >= args.len() {
                    return fatal(
                        "Required positional argument: PRIVATE_KEYS_DIR",
                        Some(CommandType::PubKey),
                    );
                }
                if i + 2 >= args.len() {
                    return fatal(
                        "Required positional argument: PUBLIC_KEYS_DIR",
                        Some(CommandType::PubKey),
                    );
                }
                cli.command = Some(
                    Command::PubKey {
                        private_keys_dir: args[i + 1].clone(),
                        public_keys_dir: args[i + 2].clone(),
                    },
                );
                i = i + 3;
            } else if is_word(x, "exchange") {
                if cli.command.is_some() {
                    return fatal("Too many commands supplied", None);
                }
                let options = ExchangeOptions::parse(args, addrs, i + 1)?;
                cli.command = Some(Command::Exchange(options));
                i = args.len();
            } else {
                let note = prefixed("Unknown command ", x);
                return fatal(note.as_str(), None);
            }
        }
        if cli.command.is_none() {
            return fatal("No command supplied", None);
        }
        Ok(cli)
    }
}

} // verus!
