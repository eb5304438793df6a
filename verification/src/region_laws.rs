//! What always holds of the lockfile and of the game servers' addresses.
use vstd::prelude::*;
use vstd::utf8::encode_utf8;

use crate::json::Tree;
use crate::region::{american, argument_texts, argument_value, first_glz_host, glz_host, glz_url, launch_region, launch_shard, logged_glz_url, region_and_shard, region_shard, server_region, server_url};
use crate::riot::{basic_auth, encoded_text, game_session, listed_game_session, local_url, lockfile_parts, match_url, session_args, RiotError, Status, CLIENT_PLATFORM};
use crate::text::{after_first, before_first, decimal, found, found_last, holds, lemma_found, lemma_found_last, occurs_at, pieces, port_value, stripped};
use crate::text_laws::{law_cut_first, law_port_round_trip, law_split_front, law_split_whole, law_stripped, lemma_decimal};

verus! {

/// A lockfile reads back: the port and the password are those that were written in its third and
/// fourth part, if none of the parts holds the separator.
pub proof fn law_lockfile_reads_back(
    name: Seq<char>,
    pid: Seq<char>,
    port: u16,
    password: Seq<char>,
    protocol: Seq<char>,
)
    requires
        !name.contains(':'),
        !pid.contains(':'),
        !password.contains(':'),
        !protocol.contains(':'),
    ensures
        ({
            let raw = name + ":"@ + pid + ":"@ + decimal(port as nat) + ":"@ + password + ":"@
                + protocol;
            &&& lockfile_parts(raw).len() == 5
            &&& port_value(lockfile_parts(raw)[2]) == Some(port)
            &&& lockfile_parts(raw)[3] == password
        }),
{
    reveal_strlit(":");
    let sep = seq![':'];
    assert(":"@ =~= sep);
    let digits = decimal(port as nat);
    lemma_decimal(port as nat);
    assert(!digits.contains(':')) by {
        if digits.contains(':') {
            let i = choose|i: int| 0 <= i < digits.len() && digits[i] == ':';
            assert('0' <= digits[i] <= '9');
        }
    }
    let raw = name + sep + pid + sep + digits + sep + password + sep + protocol;
    let after_password = protocol;
    let after_port = password + sep + after_password;
    let after_pid = digits + sep + after_port;
    let after_name = pid + sep + after_pid;
    assert(raw =~= name + sep + after_name);
    law_split_front(name, ':', after_name);
    law_split_front(pid, ':', after_pid);
    law_split_front(digits, ':', after_port);
    law_split_front(password, ':', after_password);
    law_split_whole(protocol, ':');
    law_port_round_trip(port);
    assert(lockfile_parts(raw) =~= seq![name, pid, digits, password, protocol]);
}

/// An address that is taken from a log stands in it from the last `https://glz` on, and ends with
/// the first `.a.pvp.net` behind that.
pub proof fn law_logged_url(log: Seq<char>, url: Seq<char>)
    requires
        logged_glz_url(log) == Some(url),
    ensures
        stripped(url, "https://glz"@) is Some,
        exists|start: int|
            occurs_at(log, url, start) && !(exists|later: int|
                later > start && occurs_at(log, "https://glz"@, later)),
        occurs_at(url, ".a.pvp.net"@, url.len() - ".a.pvp.net"@.len()),
        forall|i: int|
            i < url.len() - ".a.pvp.net"@.len() ==> !occurs_at(url, ".a.pvp.net"@, i),
{
    let head = "https://glz"@;
    let tail = ".a.pvp.net"@;
    reveal_strlit("https://glz");
    reveal_strlit(".a.pvp.net");
    lemma_found_last(log, head);
    let start = found_last(log, head)->0;
    let rest = log.skip(start);
    lemma_found(rest, tail);
    let end = found(rest, tail)->0;
    assert(log.subrange(start, start + head.len())[0] == rest[0]);
    assert(rest.subrange(end, end + tail.len())[0] == rest[end]);
    assert(end > 0);
    assert(url.take(head.len() as int) =~= log.subrange(start, start + head.len()));
    assert(log.subrange(start, start + url.len()) =~= url);
    assert(occurs_at(log, url, start));
    assert(url.subrange(end, end + tail.len()) =~= rest.subrange(end, end + tail.len()));
    assert forall|i: int| i < url.len() - tail.len() implies !occurs_at(url, tail, i) by {
        if occurs_at(url, tail, i) {
            assert(url.subrange(i, i + tail.len()) =~= rest.subrange(i, i + tail.len()));
            assert(occurs_at(rest, tail, i));
        }
    }
}

/// A log names no game server exactly if it holds no `https://glz`, or no `.a.pvp.net` behind the
/// last one.
pub proof fn law_no_logged_url(log: Seq<char>)
    ensures
        logged_glz_url(log) is None <==> match found_last(log, "https://glz"@) {
            Some(start) => !holds(log.skip(start), ".a.pvp.net"@),
            None => !holds(log, "https://glz"@),
        },
{
    lemma_found_last(log, "https://glz"@);
    if let Some(start) = found_last(log, "https://glz"@) {
        lemma_found(log.skip(start), ".a.pvp.net"@);
    }
}

/// Whether no end of a pattern is a start of it: it cannot overlap itself. Two characters are
/// enough to see it.
spec fn no_overlap(pattern: Seq<char>) -> bool {
    forall|k: int|
        1 <= k < pattern.len() ==> #[trigger] pattern[k] != pattern[0] || (k + 1 < pattern.len()
            && pattern[k + 1] != pattern[1])
}

/// A pattern that cannot overlap itself is found first behind a text that does not hold it.
proof fn lemma_found_behind(a: Seq<char>, pattern: Seq<char>, c: Seq<char>)
    requires
        pattern.len() > 0,
        no_overlap(pattern),
        !holds(a, pattern),
    ensures
        found(a + pattern + c, pattern) == Some(a.len() as int),
{
    let s = a + pattern + c;
    let n = a.len() as int;
    lemma_found(s, pattern);
    assert(s.subrange(n, n + pattern.len()) =~= pattern);
    assert(occurs_at(s, pattern, n));
    let i = found(s, pattern)->0;
    if i < n {
        let part = s.subrange(i, i + pattern.len());
        if i + pattern.len() <= n {
            assert(a.subrange(i, i + pattern.len()) =~= part);
            assert(occurs_at(a, pattern, i));
        } else {
            let k = n - i;
            assert(part[k] == s[n]);
            assert(pattern[k] == pattern[0]);
            if k + 1 < pattern.len() {
                assert(part[k + 1] == s[n + 1]);
            }
        }
    }
}

/// The address of a game server names its region and its shard: both read back, if the region does
/// not hold the text that ends it, nor the shard, and the start of an address does not stand in
/// what follows it.
pub proof fn law_glz_url_reads_back(region: Seq<char>, shard: Seq<char>)
    requires
        !holds(region + "-1."@ + shard + ".a.pvp.net"@, "glz-"@),
        !holds(region, "-1."@),
        !holds(shard, ".a.pvp.net"@),
    ensures
        glz_host(glz_url(region, shard)) == Some((region, shard)),
{
    reveal_strlit("https://glz-");
    reveal_strlit("glz-");
    reveal_strlit("-1.");
    reveal_strlit(".a.pvp.net");
    let scheme = seq!['h', 't', 't', 'p', 's', ':', '/', '/'];
    let rest = shard + ".a.pvp.net"@;
    let host = region + "-1."@ + rest;
    let url = glz_url(region, shard);
    assert(url =~= scheme + "glz-"@ + host);
    assert(host =~= region + "-1."@ + shard + ".a.pvp.net"@);
    assert(!holds(scheme, "glz-"@)) by {
        if holds(scheme, "glz-"@) {
            let i = choose|i: int| occurs_at(scheme, "glz-"@, i);
            assert(scheme.subrange(i, i + 4)[0] == scheme[i]);
        }
    }
    lemma_found_behind(scheme, "glz-"@, host);
    assert(url.skip(12) =~= host);
    lemma_found(host, "glz-"@);
    assert(found(host, "glz-"@) is None) by {
        if let Some(i) = found(host, "glz-"@) {
            assert(occurs_at(host, "glz-"@, i));
        }
    }
    lemma_found_behind(region, "-1."@, rest);
    assert(host.take(region.len() as int) =~= region);
    assert(host.skip(region.len() as int + 3) =~= rest);
    assert(rest =~= shard + ".a.pvp.net"@ + Seq::<char>::empty());
    lemma_found_behind(shard, ".a.pvp.net"@, Seq::empty());
    assert(rest.take(shard.len() as int) =~= shard);
}

/// If no launch argument names a game server, the region fits the shard: on `eu`, `ap` and `kr` it
/// is the shard's name, on `na` one of the regions there, on `pbe` it is `na`; and neither is empty.
pub proof fn law_region_fits_shard(
    args: Seq<Seq<char>>,
    fallback: Seq<char>,
    region: Seq<char>,
    shard: Seq<char>,
)
    requires
        first_glz_host(args) is None,
        region_and_shard(args, fallback) == Some((region, shard)),
    ensures
        shard == "eu"@ || shard == "ap"@ || shard == "kr"@ ==> region == shard,
        shard == "na"@ ==> american(region),
        shard == "pbe"@ ==> region == "na"@,
        region.len() > 0 && shard.len() > 0,
{
    reveal_strlit("na");
    reveal_strlit("eu");
    reveal_strlit("ap");
    reveal_strlit("kr");
    reveal_strlit("pbe");
    assert("pbe"@.len() != "na"@.len());
    assert("na"@[0] == 'n' && "eu"@[0] == 'e' && "ap"@[0] == 'a' && "kr"@[0] == 'k');
}

/// If no launch argument names a shard, the player's game server is always known.
pub proof fn law_region_without_shard(
    log: Option<Seq<char>>,
    args: Seq<Tree>,
    fallback: Seq<char>,
)
    requires
        argument_value(argument_texts(args), "-ares-deployment="@) is None,
        argument_value(argument_texts(args), "ares-deployment="@) is None,
    ensures
        server_url(log, args, fallback) is Some,
{
    reveal_strlit("na");
    reveal_strlit("eu");
    reveal_strlit("ap");
    reveal_strlit("kr");
    reveal_strlit("br");
    reveal_strlit("latam");
}

/// The game server that the log names comes first, whatever the launch arguments and the client's
/// region say.
pub proof fn law_log_comes_first(log: Seq<char>, args: Seq<Tree>, fallback: Seq<char>)
    requires
        logged_glz_url(log) is Some,
    ensures
        server_url(Some(log), args, fallback) == logged_glz_url(log),
{
}

/// The parts of a lockfile are what stands between its colons.
pub proof fn law_lockfile_parts(raw: Seq<char>)
    ensures
        lockfile_parts(raw) == pieces(raw, ":"@),
{
}

/// The arguments that count are the strings, in their order.
pub proof fn law_argument_texts(args: Seq<Tree>, arg: Tree)
    ensures
        argument_texts(Seq::empty()) == Seq::<Seq<char>>::empty(),
        argument_texts(args.push(arg)) == if arg is Text {
            argument_texts(args).push(arg->Text_0)
        } else {
            argument_texts(args)
        },
{
    assert(args.push(arg).drop_last() =~= args);
}

/// The value of an argument is what stands behind the prefix in the first argument that starts with
/// it; there is none exactly if none does.
pub proof fn law_argument_value(args: Seq<Seq<char>>, prefix: Seq<char>)
    ensures
        match argument_value(args, prefix) {
            Some(value) => exists|i: int|
                0 <= i < args.len() && #[trigger] args[i] == prefix + value && forall|j: int|
                    0 <= j < i ==> !occurs_at(#[trigger] args[j], prefix, 0),
            None => forall|j: int|
                0 <= j < args.len() ==> !occurs_at(#[trigger] args[j], prefix, 0),
        },
    decreases args.len(),
{
    if args.len() > 0 {
        let first = stripped(args[0], prefix);
        law_stripped(args[0], prefix, first->0);
        if first is Some {
            assert(args[0] == prefix + first->0);
        } else {
            let rest = args.skip(1);
            law_argument_value(rest, prefix);
            if argument_value(rest, prefix) is Some {
                let i = choose|i: int|
                    0 <= i < rest.len() && #[trigger] rest[i] == prefix + argument_value(
                        rest,
                        prefix,
                    )->0 && forall|j: int|
                        0 <= j < i ==> !occurs_at(#[trigger] rest[j], prefix, 0);
                assert(args[i + 1] == rest[i]);
                assert forall|j: int| 0 <= j < i + 1 implies !occurs_at(
                    #[trigger] args[j],
                    prefix,
                    0,
                ) by {
                    if j > 0 {
                        assert(!occurs_at(rest[j - 1], prefix, 0));
                    }
                }
            } else {
                assert forall|j: int| 0 <= j < args.len() implies !occurs_at(
                    #[trigger] args[j],
                    prefix,
                    0,
                ) by {
                    if j > 0 {
                        assert(!occurs_at(rest[j - 1], prefix, 0));
                    }
                }
            }
        }
    }
}

/// The host name that counts is that of the first argument with one.
pub proof fn law_first_host(args: Seq<Seq<char>>)
    ensures
        match first_glz_host(args) {
            Some(host) => exists|i: int|
                0 <= i < args.len() && glz_host(#[trigger] args[i]) == Some(host) && forall|j: int|
                    0 <= j < i ==> glz_host(#[trigger] args[j]) is None,
            None => forall|j: int| 0 <= j < args.len() ==> glz_host(#[trigger] args[j]) is None,
        },
    decreases args.len(),
{
    if args.len() > 0 {
        if glz_host(args[0]) is Some {
            assert(glz_host(args[0]) == first_glz_host(args));
        } else {
            let rest = args.skip(1);
            law_first_host(rest);
            if first_glz_host(rest) is Some {
                let i = choose|i: int|
                    0 <= i < rest.len() && glz_host(#[trigger] rest[i]) == first_glz_host(rest)
                        && forall|j: int| 0 <= j < i ==> glz_host(#[trigger] rest[j]) is None;
                assert(args[i + 1] == rest[i]);
                assert forall|j: int| 0 <= j < i + 1 implies glz_host(
                    #[trigger] args[j],
                ) is None by {
                    if j > 0 {
                        assert(glz_host(rest[j - 1]) is None);
                    }
                }
            } else {
                assert forall|j: int| 0 <= j < args.len() implies glz_host(
                    #[trigger] args[j],
                ) is None by {
                    if j > 0 {
                        assert(glz_host(rest[j - 1]) is None);
                    }
                }
            }
        }
    }
}

/// A host name stands between the first two `glz-` of a text, or behind the only one. Its region ends
/// at the first `-1.` in it, and its shard at the first `.a.pvp.net` behind that, or with the host
/// name.
pub proof fn law_host_parts(text: Seq<char>)
    ensures
        match after_first(text, "glz-"@) {
            Some(tail) => {
                let host = before_first(tail, "glz-"@);
                match glz_host(text) {
                    Some((region, shard)) => region == before_first(host, "-1."@) && (after_first(
                        host,
                        "-1."@,
                    ) matches Some(rest) && shard == before_first(rest, ".a.pvp.net"@)),
                    None => !holds(host, "-1."@),
                }
            },
            None => glz_host(text) is None,
        },
{
    if let Some(tail) = after_first(text, "glz-"@) {
        law_cut_first(before_first(tail, "glz-"@), "-1."@);
    }
}

/// The regions and shards of the game: `eu`, `ap` and `kr` are shards of their own, all other regions
/// belong to `na`; there the game server is one of the region's own, or of the client's region, or of
/// `na`, in this order; `pbe` is at `na`, and any other shard has its region as it is named.
pub proof fn law_regions(region: Seq<char>, shard: Seq<char>, fallback: Seq<char>)
    ensures
        american(region) <==> region == "na"@ || region == "latam"@ || region == "br"@,
        region == "eu"@ || region == "ap"@ || region == "kr"@ ==> region_shard(region) == region,
        region != "eu"@ && region != "ap"@ && region != "kr"@ ==> region_shard(region) == "na"@,
        shard == "eu"@ || shard == "ap"@ || shard == "kr"@ ==> server_region(
            region,
            shard,
            fallback,
        ) == shard,
        shard == "na"@ && american(region) ==> server_region(region, shard, fallback) == region,
        shard == "na"@ && !american(region) && american(fallback) ==> server_region(
            region,
            shard,
            fallback,
        ) == fallback,
        shard == "na"@ && !american(region) && !american(fallback) ==> server_region(
            region,
            shard,
            fallback,
        ) == "na"@,
        shard == "pbe"@ ==> server_region(region, shard, fallback) == "na"@,
        shard != "eu"@ && shard != "ap"@ && shard != "kr"@ && shard != "na"@ && shard != "pbe"@
            ==> server_region(region, shard, fallback) == region,
{
    reveal_strlit("na");
    reveal_strlit("eu");
    reveal_strlit("ap");
    reveal_strlit("kr");
    reveal_strlit("pbe");
    assert("pbe"@.len() != "na"@.len());
    assert("na"@[0] == 'n' && "eu"@[0] == 'e' && "ap"@[0] == 'a' && "kr"@[0] == 'k');
}

/// The region and the shard come from the arguments, the dashed form before the other; a missing
/// region is the client's, and a missing shard is the region's.
pub proof fn law_launch_settings(args: Seq<Seq<char>>, fallback: Seq<char>, region: Seq<char>)
    ensures
        argument_value(args, "-ares-region="@) matches Some(value) ==> launch_region(args, fallback)
            == value,
        argument_value(args, "-ares-region="@) is None ==> (argument_value(
            args,
            "ares-region="@,
        ) matches Some(value) ==> launch_region(args, fallback) == value),
        argument_value(args, "-ares-region="@) is None && argument_value(args, "ares-region="@) is None
            ==> launch_region(args, fallback) == fallback,
        argument_value(args, "-ares-deployment="@) matches Some(value) ==> launch_shard(args, region)
            == value,
        argument_value(args, "-ares-deployment="@) is None ==> (argument_value(
            args,
            "ares-deployment="@,
        ) matches Some(value) ==> launch_shard(args, region) == value),
        argument_value(args, "-ares-deployment="@) is None && argument_value(
            args,
            "ares-deployment="@,
        ) is None ==> launch_shard(args, region) == region_shard(region),
{
}

/// A host name in the arguments counts before all else; without one, the region and the shard are
/// those of the arguments and the client, the region being the one that fits the shard, and they are
/// unknown exactly if one of them is empty.
pub proof fn law_region_and_shard(args: Seq<Seq<char>>, fallback: Seq<char>)
    ensures
        ({
            let named = launch_region(args, fallback);
            let shard = launch_shard(args, named);
            let region = server_region(named, shard, fallback);
            &&& first_glz_host(args) is Some ==> region_and_shard(args, fallback) == first_glz_host(
                args,
            )
            &&& first_glz_host(args) is None && region.len() > 0 && shard.len() > 0
                ==> region_and_shard(args, fallback) == Some((region, shard))
            &&& first_glz_host(args) is None && (region.len() == 0 || shard.len() == 0)
                ==> region_and_shard(args, fallback) is None
        }),
{
}

/// Without a game server in the log, the address is made of the region and the shard, and there is
/// none exactly if these are unknown.
pub proof fn law_address_without_log(
    log: Option<Seq<char>>,
    args: Seq<Tree>,
    fallback: Seq<char>,
)
    requires
        log is Some ==> logged_glz_url(log->0) is None,
    ensures
        match region_and_shard(argument_texts(args), fallback) {
            Some((region, shard)) => server_url(log, args, fallback) == Some(
                "https://glz-"@ + region + "-1."@ + shard + ".a.pvp.net"@,
            ),
            None => server_url(log, args, fallback) is None,
        },
{
}

proof fn lemma_game_session(sessions: Seq<Tree>)
    ensures
        match game_session(sessions) {
            Some(session) => exists|i: int|
                0 <= i < sessions.len() && #[trigger] sessions[i] == session && session.text_member(
                    "productId"@,
                ) == Some("valorant"@) && forall|j: int|
                    0 <= j < i ==> (#[trigger] sessions[j]).text_member("productId"@) != Some(
                        "valorant"@,
                    ),
            None => forall|j: int|
                0 <= j < sessions.len() ==> (#[trigger] sessions[j]).text_member("productId"@)
                    != Some("valorant"@),
        },
    decreases sessions.len(),
{
    if sessions.len() > 0 {
        if sessions[0].text_member("productId"@) == Some("valorant"@) {
            assert(sessions[0] == game_session(sessions)->0);
        } else {
            let rest = sessions.skip(1);
            lemma_game_session(rest);
            match game_session(rest) {
                Some(session) => {
                    let i = choose|i: int|
                        0 <= i < rest.len() && #[trigger] rest[i] == session && forall|j: int|
                            0 <= j < i ==> (#[trigger] rest[j]).text_member("productId"@) != Some(
                                "valorant"@,
                            );
                    assert(sessions[i + 1] == session);
                    assert forall|j: int| 0 <= j < i + 1 implies (#[trigger] sessions[j]).text_member(
                        "productId"@,
                    ) != Some("valorant"@) by {
                        if j > 0 {
                            assert(rest[j - 1].text_member("productId"@) != Some("valorant"@));
                        }
                    }
                },
                None => {
                    assert forall|j: int| 0 <= j < sessions.len() implies (
                    #[trigger] sessions[j]).text_member("productId"@) != Some("valorant"@) by {
                        if j > 0 {
                            assert(rest[j - 1].text_member("productId"@) != Some("valorant"@));
                        }
                    }
                },
            }
        }
    }
}

/// The game's session is the first of the client's whose product is the game; there is none exactly
/// if no product is, or if the answer is no object.
pub proof fn law_game_session(names: Seq<Seq<char>>, sessions: Seq<Tree>, other: Tree)
    ensures
        !(other is Object) ==> listed_game_session(other) is None,
        match listed_game_session(Tree::Object(names, sessions)) {
            Some(session) => exists|i: int|
                0 <= i < sessions.len() && #[trigger] sessions[i] == session && session.text_member(
                    "productId"@,
                ) == Some("valorant"@) && forall|j: int|
                    0 <= j < i ==> (#[trigger] sessions[j]).text_member("productId"@) != Some(
                        "valorant"@,
                    ),
            None => forall|j: int|
                0 <= j < sessions.len() ==> (#[trigger] sessions[j]).text_member("productId"@)
                    != Some("valorant"@),
        },
{
    lemma_game_session(sessions);
}

/// The launch arguments of a session are the array of that name in its launch configuration; without
/// one there are none.
pub proof fn law_session_args(session: Tree, launch: Tree, args: Seq<Tree>)
    ensures
        session.member("launchConfiguration"@) == Some(launch) && launch.member("arguments"@)
            == Some(Tree::Array(args)) ==> session_args(session) == args,
        session.member("launchConfiguration"@) is None ==> session_args(session).len() == 0,
        session.member("launchConfiguration"@) == Some(launch) && !(launch.member(
            "arguments"@,
        ) matches Some(Tree::Array(_))) ==> session_args(session).len() == 0,
{
}

/// The addresses and the credentials of the services.
pub proof fn law_addresses(
    port: u16,
    password: Seq<char>,
    region: Seq<char>,
    shard: Seq<char>,
    glz_base: Seq<char>,
    match_id: Seq<char>,
)
    ensures
        local_url(port) == "https://127.0.0.1:"@ + decimal(port as nat),
        basic_auth(password) == "Basic "@ + encoded_text(encode_utf8("riot:"@ + password)),
        glz_url(region, shard) == "https://glz-"@ + region + "-1."@ + shard + ".a.pvp.net"@,
        match_url(glz_base, match_id) == glz_base + "/pregame/v1/matches/"@ + match_id,
{
}

/// A request succeeded exactly if its status starts with a two.
pub proof fn law_success(status: Status)
    ensures
        status.success() <==> status.number() / 100 == 2,
{
}

/// What a user is told if the services cannot be reached.
pub proof fn law_shown_failures(error: RiotError)
    ensures
        error.shown() == match error {
            RiotError::LockfileFormat => "Riot lockfile had unexpected format"@,
            RiotError::LockfilePort => "lockfile port was invalid"@,
            RiotError::SessionNotFound =>
                "Valorant session was not found; start Valorant before arming"@,
            RiotError::ClientVersionMissing => "Valorant session did not include client version"@,
            RiotError::RegionUnknown => "could not determine Valorant region/shard"@,
        },
{
}

/// The platform that requests name, as the game's services expect it.
pub proof fn law_client_platform()
    ensures
        CLIENT_PLATFORM@ == "ew0KCSJwbGF0Zm9ybVR5cGUiOiAiUEMiLA0KCSJwbGF0Zm9ybU9TIjogIldpbmRvd3MiLA0KCSJwbGF0Zm9ybU9TVmVyc2lvbiI6ICIxMC4wLjE5MDQyLjEuMjU2LjY0Yml0IiwNCgkicGxhdGZvcm1DaGlwc2V0IjogIlVua25vd24iDQp9"@,
{
}

} // verus!
