//! Addresses of the loopback interface that macOS answers to only after they were added to it.

use vstd::prelude::*;
use vstd::string::*;

use crate::address::{dotted_parts, parse_ipv4, parsed_ipv4};
use crate::command::{
    command, detail_text, failure_detail, law_first_failure_ends_the_plan, plan_result, required,
    run_value, Action, ActionValue, CommandLine, Plan, ProcessOutput, StepValue,
};
use crate::config::AppConfig;
use crate::decode::{decode_utf8, utf8_text};
use crate::failure::{outcome, Failure};
use crate::platform::Platform;
use crate::text::{
    contains, digits_value, has_text, lemma_first_index_is, push_text, same_text, texts, trim,
    trimmed,
};

verus! {

/// `host` is an address of the loopback network other than `127.0.0.1`.
pub open spec fn is_loopback_alias(host: Seq<char>) -> bool {
    match parsed_ipv4(host) {
        Some((a, b, c, d)) => a == 127 && !(b == 0 && c == 0 && d == 1),
        None => false,
    }
}

/// The addresses among `listen_host` and `hosts_ip` that have to be added, each of them once.
pub open spec fn loopback_aliases(listen_host: Seq<char>, hosts_ip: Seq<char>) -> Seq<Seq<char>> {
    if is_loopback_alias(listen_host) {
        if is_loopback_alias(hosts_ip) && hosts_ip != listen_host {
            seq![listen_host, hosts_ip]
        } else {
            seq![listen_host]
        }
    } else if is_loopback_alias(hosts_ip) {
        seq![hosts_ip]
    } else {
        Seq::empty()
    }
}

/// Adds `candidate` where it has to be added and is not there yet.
fn push_alias(addrs: &mut Vec<String>, candidate: &String)
    requires
        texts(old(addrs)@).len() <= 1,
    ensures
        texts(final(addrs)@) == (if is_loopback_alias(candidate@) && !(texts(old(addrs)@).len() == 1
            && texts(old(addrs)@)[0] == candidate@) {
            texts(old(addrs)@).push(candidate@)
        } else {
            texts(old(addrs)@)
        }),
{
    if let Some((a, b, c, d)) = parse_ipv4(candidate.as_str()) {
        if a == 127 && !(b == 0 && c == 0 && d == 1) {
            if addrs.len() == 1 && same_text(addrs[0].as_str(), candidate.as_str()) {
                return;
            }
            push_text(addrs, candidate.clone());
        }
    }
}

/// The addresses that the settings name and that have to be added to the loopback interface.
pub fn macos_loopback_aliases(config: &AppConfig) -> (addrs: Vec<String>)
    ensures
        texts(addrs@) == loopback_aliases(config@.listen_host, config@.hosts_ip),
{
    let mut addrs: Vec<String> = Vec::new();
    assert(texts(addrs@) =~= Seq::<Seq<char>>::empty());
    push_alias(&mut addrs, &config.listen_host);
    push_alias(&mut addrs, &config.hosts_ip);
    assert(texts(addrs@) =~= loopback_aliases(config@.listen_host, config@.hosts_ip));
    addrs
}

/// The addresses to be added, on the platform that needs it.
pub open spec fn platform_aliases(platform: Platform, listen_host: Seq<char>, hosts_ip: Seq<char>) -> Seq<
    Seq<char>,
> {
    if platform is Macos {
        loopback_aliases(listen_host, hosts_ip)
    } else {
        Seq::empty()
    }
}

/// The addresses to be added, on the platform that needs it.
fn aliases_of(platform: Platform, config: &AppConfig) -> (addrs: Vec<String>)
    ensures
        texts(addrs@) == platform_aliases(platform, config@.listen_host, config@.hosts_ip),
{
    match platform {
        Platform::Macos => macos_loopback_aliases(config),
        _ => {
            let addrs: Vec<String> = Vec::new();
            assert(texts(addrs@) =~= Seq::<Seq<char>>::empty());
            addrs
        },
    }
}

/// The plan that adds the addresses, one after the other; the first that cannot be added ends it.
pub open spec fn add_plan<P>(addrs: Seq<Seq<char>>) -> Seq<StepValue<P>> {
    Seq::new(addrs.len(), |i: int| required(ActionValue::AddAlias(addrs[i])))
}

/// The plan that takes the addresses away, one after the other; the first that cannot be taken
/// away ends it.
pub open spec fn remove_plan<P>(addrs: Seq<Seq<char>>) -> Seq<StepValue<P>> {
    Seq::new(addrs.len(), |i: int| required(ActionValue::RemoveAlias(addrs[i])))
}

/// What is to be done before the service listens: its addresses are added to the loopback
/// interface.
pub fn ensure_loopback_alias<P>(platform: Platform, config: &AppConfig) -> (plan: Plan<P>)
    ensures
        plan@ == add_plan::<P>(platform_aliases(platform, config@.listen_host, config@.hosts_ip)),
{
    let addrs = aliases_of(platform, config);
    let ghost all = texts(addrs@);
    let mut plan: Plan<P> = Plan::new();
    assert(plan@ =~= add_plan(all.take(0)));
    for i in 0..addrs.len()
        invariant
            all == texts(addrs@),
            plan@ == add_plan::<P>(all.take(i as int)),
    {
        assert(add_plan::<P>(all.take(i + 1)) =~= add_plan(all.take(i as int)).push(
            required(ActionValue::AddAlias(all[i as int])),
        ));
        plan = plan.require(Action::AddAlias(addrs[i].clone()));
    }
    assert(all.take(all.len() as int) =~= all);
    plan
}

/// What is to be done after the service stopped: its addresses are taken from the loopback
/// interface.
pub fn remove_loopback_alias<P>(platform: Platform, config: &AppConfig) -> (plan: Plan<P>)
    ensures
        plan@ == remove_plan::<P>(platform_aliases(platform, config@.listen_host, config@.hosts_ip)),
{
    let addrs = aliases_of(platform, config);
    let ghost all = texts(addrs@);
    let mut plan: Plan<P> = Plan::new();
    assert(plan@ =~= remove_plan(all.take(0)));
    for i in 0..addrs.len()
        invariant
            all == texts(addrs@),
            plan@ == remove_plan::<P>(all.take(i as int)),
    {
        assert(remove_plan::<P>(all.take(i + 1)) =~= remove_plan(all.take(i as int)).push(
            required(ActionValue::RemoveAlias(all[i as int])),
        ));
        plan = plan.require(Action::RemoveAlias(addrs[i].clone()));
    }
    assert(all.take(all.len() as int) =~= all);
    plan
}

/// The command that adds an address.
pub fn add_alias_command(addr: &str) -> (line: CommandLine)
    ensures
        line@ == command("ifconfig"@).with("lo0"@).with("alias"@).with(addr@).with("up"@),
{
    CommandLine::new("ifconfig").arg("lo0").arg("alias").arg(addr).arg("up")
}

/// The command that takes an address away.
pub fn remove_alias_command(addr: &str) -> (line: CommandLine)
    ensures
        line@ == command("ifconfig"@).with("lo0"@).with("-alias"@).with(addr@),
{
    CommandLine::new("ifconfig").arg("lo0").arg("-alias").arg(addr)
}

/// What adding `addr` came to, where the command ended with `success` and wrote these texts: that
/// the address is there already is no failure.
pub open spec fn add_alias_verdict(
    addr: Seq<char>,
    success: bool,
    stderr: Seq<char>,
    stdout: Seq<char>,
) -> Result<(), Seq<Seq<char>>> {
    if success || has_text(trimmed(stderr), "File exists"@) {
        Ok(())
    } else {
        Err(
            seq![
                "ifconfig lo0 alias "@ + addr + " failed: "@ + detail_text(
                    stderr,
                    stdout,
                    "unknown error"@,
                ),
            ],
        )
    }
}

/// What taking `addr` away came to: that the address is not there is no failure.
pub open spec fn remove_alias_verdict(
    addr: Seq<char>,
    success: bool,
    stderr: Seq<char>,
    stdout: Seq<char>,
) -> Result<(), Seq<Seq<char>>> {
    if success || has_text(trimmed(stderr), "Can't assign requested address"@) || has_text(
        trimmed(stderr),
        "does not exist"@,
    ) {
        Ok(())
    } else {
        Err(
            seq![
                "ifconfig lo0 -alias "@ + addr + " failed: "@ + detail_text(
                    stderr,
                    stdout,
                    "unknown error"@,
                ),
            ],
        )
    }
}

/// Judges an attempt to add `addr` by what the command wrote.
pub fn judge_added_alias(addr: &str, success: bool, stderr: &str, stdout: &str) -> (result: Result<
    (),
    Failure,
>)
    ensures
        outcome(result) == add_alias_verdict(addr@, success, stderr@, stdout@),
{
    if success || contains(trim(stderr).as_str(), "File exists") {
        return Ok(());
    }
    let detail = failure_detail(stderr, stdout, "unknown error");
    Err(
        Failure::new(
            "ifconfig lo0 alias ".to_string().concat(addr).concat(" failed: ").concat(
                detail.as_str(),
            ),
        ),
    )
}

/// Judges an attempt to take `addr` away by what the command wrote.
pub fn judge_removed_alias(addr: &str, success: bool, stderr: &str, stdout: &str) -> (result:
    Result<(), Failure>)
    ensures
        outcome(result) == remove_alias_verdict(addr@, success, stderr@, stdout@),
{
    if success {
        return Ok(());
    }
    let complaint = trim(stderr);
    if contains(complaint.as_str(), "Can't assign requested address") || contains(
        complaint.as_str(),
        "does not exist",
    ) {
        return Ok(());
    }
    let detail = failure_detail(stderr, stdout, "unknown error");
    Err(
        Failure::new(
            "ifconfig lo0 -alias ".to_string().concat(addr).concat(" failed: ").concat(
                detail.as_str(),
            ),
        ),
    )
}

/// The result of adding `addr` with the command `run`.
pub fn ensure_macos_loopback_aliases(addr: &str, run: Result<ProcessOutput, Failure>) -> (result:
    Result<(), Failure>)
    ensures
        outcome(result) == (match run_value(run) {
            Err(causes) => Err(
                seq!["failed to execute ifconfig for loopback alias "@ + addr@] + causes,
            ),
            Ok(output) => add_alias_verdict(
                addr@,
                output.success,
                utf8_text(output.stderr),
                utf8_text(output.stdout),
            ),
        }),
{
    match run {
        Err(error) => Err(
            error.context(
                "failed to execute ifconfig for loopback alias ".to_string().concat(addr),
            ),
        ),
        Ok(output) => judge_added_alias(
            addr,
            output.success,
            decode_utf8(output.stderr.as_slice()).as_str(),
            decode_utf8(output.stdout.as_slice()).as_str(),
        ),
    }
}

/// The result of taking `addr` away with the command `run`.
pub fn remove_macos_loopback_aliases(addr: &str, run: Result<ProcessOutput, Failure>) -> (result:
    Result<(), Failure>)
    ensures
        outcome(result) == (match run_value(run) {
            Err(causes) => Err(
                seq!["failed to execute ifconfig for loopback alias cleanup "@ + addr@] + causes,
            ),
            Ok(output) => remove_alias_verdict(
                addr@,
                output.success,
                utf8_text(output.stderr),
                utf8_text(output.stdout),
            ),
        }),
{
    match run {
        Err(error) => Err(
            error.context(
                "failed to execute ifconfig for loopback alias cleanup ".to_string().concat(addr),
            ),
        ),
        Ok(output) => judge_removed_alias(
            addr,
            output.success,
            decode_utf8(output.stderr.as_slice()).as_str(),
            decode_utf8(output.stdout.as_slice()).as_str(),
        ),
    }
}

/// The call fails if and only if some address cannot be added, or taken away.
pub proof fn law_every_alias_has_to_succeed<P>(
    addrs: Seq<Seq<char>>,
    results: spec_fn(ActionValue<P>) -> Result<(), Seq<Seq<char>>>,
)
    ensures
        plan_result(add_plan(addrs), results) is Ok <==> forall|i: int|
            0 <= i < addrs.len() ==> results(ActionValue::AddAlias(#[trigger] addrs[i])) is Ok,
        plan_result(remove_plan(addrs), results) is Ok <==> forall|i: int|
            0 <= i < addrs.len() ==> results(ActionValue::RemoveAlias(#[trigger] addrs[i])) is Ok,
{
    law_first_failure_ends_the_plan(add_plan(addrs), results);
    law_first_failure_ends_the_plan(remove_plan(addrs), results);
    assert(forall|i: int|
        0 <= i < addrs.len() ==> add_plan::<P>(addrs)[i].action == ActionValue::<P>::AddAlias(
            #[trigger] addrs[i],
        ));
    assert(forall|i: int|
        0 <= i < addrs.len() ==> remove_plan::<P>(addrs)[i].action == ActionValue::<P>::RemoveAlias(
            #[trigger] addrs[i],
        ));
}

/// Only addresses of the loopback network are ever added or taken away, never `127.0.0.1`
/// itself, and none of them twice.
pub proof fn law_aliases_are_loopback(platform: Platform, listen_host: Seq<char>, hosts_ip: Seq<char>)
    ensures
        forall|i: int|
            0 <= i < platform_aliases(platform, listen_host, hosts_ip).len() ==> is_loopback_alias(
                #[trigger] platform_aliases(platform, listen_host, hosts_ip)[i],
            ),
        platform_aliases(platform, listen_host, hosts_ip).no_duplicates(),
        !is_loopback_alias("127.0.0.1"@),
{
    lemma_home_address();
}

/// `127.0.0.1` is read as the four octets that it names.
proof fn lemma_home_address()
    ensures
        parsed_ipv4("127.0.0.1"@) == Some((127u8, 0u8, 0u8, 1u8)),
{
    reveal_strlit("127.0.0.1");
    let host = "127.0.0.1"@;
    lemma_first_index_is(host, '.', 3);
    let rest1 = host.skip(4);
    lemma_first_index_is(rest1, '.', 1);
    let rest2 = rest1.skip(2);
    lemma_first_index_is(rest2, '.', 1);
    let rest3 = rest2.skip(2);
    lemma_first_index_is(rest3, '.', 1);
    reveal_with_fuel(dotted_parts, 5);
    let parts = dotted_parts(host);
    assert(parts =~= seq![host.take(3), rest1.take(1), rest2.take(1), rest3]);
    reveal_with_fuel(digits_value, 4);
    assert(parts[0] =~= seq!['1', '2', '7']);
    assert(parts[1] =~= seq!['0']);
    assert(parts[2] =~= seq!['0']);
    assert(parts[3] =~= seq!['1']);
    assert(digits_value(seq!['1', '2', '7']) == 127) by {
        assert(seq!['1', '2', '7'].drop_last() =~= seq!['1', '2']);
        assert(seq!['1', '2'].drop_last() =~= seq!['1']);
        assert(seq!['1'].drop_last() =~= Seq::<char>::empty());
    }
    assert(digits_value(seq!['0']) == 0) by {
        assert(seq!['0'].drop_last() =~= Seq::<char>::empty());
    }
    assert(digits_value(seq!['1']) == 1) by {
        assert(seq!['1'].drop_last() =~= Seq::<char>::empty());
    }
}

/// An address has to be added exactly where it is read as four octets, the first of which is that of the
/// loopback network, and is not `127.0.0.1`.
pub proof fn law_aliases_are_other_loopback_addresses(host: Seq<char>)
    ensures
        is_loopback_alias(host) ==> parsed_ipv4(host) is Some,
        parsed_ipv4(host) matches Some((a, b, c, d)) ==> (is_loopback_alias(host) <==> a == 127 && (b
            != 0 || c != 0 || d != 1)),
{
}

/// What has to be added on macOS are exactly those of the two addresses that are in need of it, the one
/// that is listened on first; on other systems there is none.
pub proof fn law_aliases_are_those_in_need(
    platform: Platform,
    listen_host: Seq<char>,
    hosts_ip: Seq<char>,
    addr: Seq<char>,
)
    ensures
        platform_aliases(platform, listen_host, hosts_ip).contains(addr) <==> platform is Macos
            && is_loopback_alias(addr) && (addr == listen_host || addr == hosts_ip),
        platform is Macos && is_loopback_alias(listen_host) ==> platform_aliases(
            platform,
            listen_host,
            hosts_ip,
        )[0] == listen_host,
        platform_aliases(platform, listen_host, hosts_ip).len() <= 2,
{
    let aliases = platform_aliases(platform, listen_host, hosts_ip);
    if platform is Macos && is_loopback_alias(addr) {
        if addr == listen_host {
            assert(aliases[0] == addr);
        } else if addr == hosts_ip {
            assert(aliases[aliases.len() - 1] == addr);
        }
    }
}

/// The plans go through the addresses in order, one required step for each.
pub proof fn law_each_alias_has_its_step<P>(addrs: Seq<Seq<char>>)
    ensures
        add_plan::<P>(addrs).len() == addrs.len(),
        remove_plan::<P>(addrs).len() == addrs.len(),
        forall|i: int|
            0 <= i < addrs.len() ==> {
                &&& (#[trigger] add_plan::<P>(addrs)[i]).policy is Required
                &&& add_plan::<P>(addrs)[i].action == ActionValue::<P>::AddAlias(addrs[i])
            },
        forall|i: int|
            0 <= i < addrs.len() ==> {
                &&& (#[trigger] remove_plan::<P>(addrs)[i]).policy is Required
                &&& remove_plan::<P>(addrs)[i].action == ActionValue::<P>::RemoveAlias(addrs[i])
            },
{
}

/// Adding an address fails only where it is not there already, and taking it away only where it is there; a
/// failure names the address and what the command complained of.
pub proof fn law_aliases_may_be_there_already(
    addr: Seq<char>,
    success: bool,
    stderr: Seq<char>,
    stdout: Seq<char>,
)
    ensures
        add_alias_verdict(addr, success, stderr, stdout) is Ok <==> success || has_text(
            trimmed(stderr),
            "File exists"@,
        ),
        add_alias_verdict(addr, success, stderr, stdout) is Err ==> add_alias_verdict(
            addr,
            success,
            stderr,
            stdout,
        )->Err_0 == seq![
            "ifconfig lo0 alias "@ + addr + " failed: "@ + detail_text(
                stderr,
                stdout,
                "unknown error"@,
            ),
        ],
        remove_alias_verdict(addr, success, stderr, stdout) is Ok <==> success || has_text(
            trimmed(stderr),
            "Can't assign requested address"@,
        ) || has_text(trimmed(stderr), "does not exist"@),
        remove_alias_verdict(addr, success, stderr, stdout) is Err ==> remove_alias_verdict(
            addr,
            success,
            stderr,
            stdout,
        )->Err_0 == seq![
            "ifconfig lo0 -alias "@ + addr + " failed: "@ + detail_text(
                stderr,
                stdout,
                "unknown error"@,
            ),
        ],
{
}

} // verus!
