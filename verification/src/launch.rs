use vstd::prelude::*;
use vstd::string::StringExecFns;
use crate::decimal::{decimal_spec, u16_to_decimal};

verus! {

/// What base64 encoding returns for a given string: the result depends on
/// the input alone.
pub uninterp spec fn base64_of(s: Seq<char>) -> Seq<char>;

/// Relies on base64's Engine::encode with the STANDARD engine: it encodes
/// the input's bytes as a function of the input alone, over the standard
/// alphabet (A-Z, a-z, 0-9, '+', '/') with '=' padding - so the result
/// never contains a comma - and the empty input encodes to the empty
/// string.
#[verifier::external_body]
fn base64_encode(s: &str) -> (r: String)
    ensures
        r@ == base64_of(s@),
        forall|i: int| 0 <= i < r@.len() ==> r@[i] != ',',
        s@.len() == 0 ==> r@.len() == 0,
{
    base64::engine::Engine::encode(&base64::engine::general_purpose::STANDARD, s)
}

/// The first `n` command-line arguments, each base64-encoded, joined with
/// commas.
pub open spec fn encoded_args_prefix(args: Seq<Seq<char>>, n: int) -> Seq<char>
    recommends
        0 <= n <= args.len(),
    decreases n,
{
    if n <= 0 {
        Seq::empty()
    } else if n == 1 {
        base64_of(args[0])
    } else {
        encoded_args_prefix(args, n - 1) + seq![','] + base64_of(args[n - 1])
    }
}

/// The single launcher argument that carries the initiator's command-line
/// arguments onward: each argument base64-encoded, all joined with commas.
/// Because base64 output never contains a comma, the joined string parts
/// unambiguously.
pub open spec fn encoded_args_spec(args: Seq<Seq<char>>) -> Seq<char> {
    encoded_args_prefix(args, args.len() as int)
}

/// Encodes the initiator's arguments for the launcher: each one in
/// base64, joined with commas.
pub fn encode_args(args: &Vec<String>) -> (r: String)
    ensures
        r@ == encoded_args_spec(args.deep_view()),
{
    let ghost dv = args.deep_view();
    let mut out = String::new();
    let mut i: usize = 0;
    while i < args.len()
        invariant
            i <= args@.len(),
            dv == args.deep_view(),
            dv.len() == args@.len(),
            out@ == encoded_args_prefix(dv, i as int),
        decreases args@.len() - i,
    {
        if i > 0 {
            out.append(",");
        }
        let enc = base64_encode(args[i].as_str());
        out.append(enc.as_str());
        proof {
            reveal_strlit(",");
            assert(dv[i as int] == args@[i as int]@);
            if i > 0 {
                assert(out@ =~= encoded_args_prefix(dv, i as int) + seq![','] + base64_of(
                    dv[i as int],
                ));
            }
            assert(out@ =~= encoded_args_prefix(dv, i + 1 as int));
        }
        i = i + 1;
    }
    out
}

/// The argv of the launcher invocation that starts the peer: the `am
/// broadcast` command addressed to the companion application's receiver,
/// carrying the bound port, and - only when the initiator itself received
/// arguments - the encoded argument string.
pub open spec fn launcher_argv_spec(port: u16, args: Seq<Seq<char>>) -> Seq<Seq<char>> {
    let base = seq![
        "am"@,
        "broadcast"@,
        "-n"@,
        "org.ddosolitary.okcagent/.GpgProxyReceiver"@,
        "--ei"@,
        "org.ddosolitary.okcagent.extra.PROXY_PORT"@,
        decimal_spec(port as int),
    ];
    if args.len() == 0 {
        base
    } else {
        base + seq!["--esa"@, "org.ddosolitary.okcagent.extra.GPG_ARGS"@, encoded_args_spec(args)]
    }
}

/// Builds the launcher's argument vector for the bound port and the
/// initiator's own arguments: program name first, then its arguments in
/// order. When the initiator got no arguments, the encoded-arguments
/// extra is left out entirely.
pub fn launcher_argv(port: u16, args: &Vec<String>) -> (argv: Vec<String>)
    ensures
        argv.deep_view() == launcher_argv_spec(port, args.deep_view()),
        args@.len() == 0 ==> argv@.len() == 7,
        args@.len() != 0 ==> argv@.len() == 10,
{
    let mut argv: Vec<String> = Vec::new();
    argv.push("am".to_owned());
    argv.push("broadcast".to_owned());
    argv.push("-n".to_owned());
    argv.push("org.ddosolitary.okcagent/.GpgProxyReceiver".to_owned());
    argv.push("--ei".to_owned());
    argv.push("org.ddosolitary.okcagent.extra.PROXY_PORT".to_owned());
    argv.push(u16_to_decimal(port));
    if args.len() > 0 {
        argv.push("--esa".to_owned());
        argv.push("org.ddosolitary.okcagent.extra.GPG_ARGS".to_owned());
        argv.push(encode_args(args));
    }
    proof {
        assert(argv.deep_view() =~~= launcher_argv_spec(port, args.deep_view()));
    }
    argv
}

} // verus!
