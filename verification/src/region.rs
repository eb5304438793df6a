//! Which of the game's servers a player belongs to: the region and the shard, read from the game's
//! log, from its launch arguments or from the client's region.
use vstd::prelude::*;

use crate::json::{item_trees, lemma_item_trees, Json, Tree};
use crate::riot::RiotError;
use crate::text::{after_first, before_first, cut_after_first, cut_before_first, find, found, found_last, lemma_found, lemma_found_last, rfind, same, strip_prefix, stripped, texts_of};

verus! {

/// The address of the last game server that a log names.
pub open spec fn logged_glz_url(log: Seq<char>) -> Option<Seq<char>> {
    match found_last(log, "https://glz"@) {
        Some(start) => match found(log.skip(start), ".a.pvp.net"@) {
            Some(end) => Some(log.skip(start).take(end + ".a.pvp.net"@.len())),
            None => None,
        },
        None => None,
    }
}

/// The region and the shard that a game server's host name gives.
pub open spec fn glz_host(text: Seq<char>) -> Option<(Seq<char>, Seq<char>)> {
    match after_first(text, "glz-"@) {
        Some(tail) => {
            let host = before_first(tail, "glz-"@);
            match after_first(host, "-1."@) {
                Some(rest) => Some(
                    (before_first(host, "-1."@), before_first(rest, ".a.pvp.net"@)),
                ),
                None => None,
            }
        },
        None => None,
    }
}

/// The arguments that are strings.
pub open spec fn argument_texts(args: Seq<Tree>) -> Seq<Seq<char>>
    decreases args.len(),
{
    if args.len() == 0 {
        seq![]
    } else {
        match args.last().text() {
            Some(text) => argument_texts(args.drop_last()).push(text),
            None => argument_texts(args.drop_last()),
        }
    }
}

/// The region and the shard that the first argument with a game server's host name gives.
pub open spec fn first_glz_host(args: Seq<Seq<char>>) -> Option<(Seq<char>, Seq<char>)>
    decreases args.len(),
{
    if args.len() == 0 {
        None
    } else {
        match glz_host(args[0]) {
            Some(host) => Some(host),
            None => first_glz_host(args.skip(1)),
        }
    }
}

/// What stands behind the prefix in the first argument that starts with it.
pub open spec fn argument_value(args: Seq<Seq<char>>, prefix: Seq<char>) -> Option<Seq<char>>
    decreases args.len(),
{
    if args.len() == 0 {
        None
    } else {
        match stripped(args[0], prefix) {
            Some(value) => Some(value),
            None => argument_value(args.skip(1), prefix),
        }
    }
}

/// The shard that a region belongs to.
pub open spec fn region_shard(region: Seq<char>) -> Seq<char> {
    if region == "eu"@ || region == "ap"@ || region == "kr"@ {
        region
    } else {
        "na"@
    }
}

/// Whether a region is one of those on the shard `na`.
pub open spec fn american(region: Seq<char>) -> bool {
    region == "na"@ || region == "latam"@ || region == "br"@
}

/// The region that a shard's game server is named after.
pub open spec fn server_region(
    region: Seq<char>,
    shard: Seq<char>,
    fallback: Seq<char>,
) -> Seq<char> {
    if shard == "eu"@ || shard == "ap"@ || shard == "kr"@ {
        shard
    } else if shard == "na"@ {
        if american(region) {
            region
        } else if american(fallback) {
            fallback
        } else {
            "na"@
        }
    } else if shard == "pbe"@ {
        "na"@
    } else {
        region
    }
}

/// The region that the launch arguments name, the client's region if they name none.
pub open spec fn launch_region(args: Seq<Seq<char>>, fallback: Seq<char>) -> Seq<char> {
    match argument_value(args, "-ares-region="@) {
        Some(region) => region,
        None => match argument_value(args, "ares-region="@) {
            Some(region) => region,
            None => fallback,
        },
    }
}

/// The shard that the launch arguments name, the region's shard if they name none.
pub open spec fn launch_shard(args: Seq<Seq<char>>, region: Seq<char>) -> Seq<char> {
    match argument_value(args, "-ares-deployment="@) {
        Some(shard) => shard,
        None => match argument_value(args, "ares-deployment="@) {
            Some(shard) => shard,
            None => region_shard(region),
        },
    }
}

/// The region and the shard that the launch arguments and the client's region give.
pub open spec fn region_and_shard(args: Seq<Seq<char>>, fallback: Seq<char>) -> Option<
    (Seq<char>, Seq<char>),
> {
    match first_glz_host(args) {
        Some(host) => Some(host),
        None => {
            let named = launch_region(args, fallback);
            let shard = launch_shard(args, named);
            let region = server_region(named, shard, fallback);
            if region.len() == 0 || shard.len() == 0 {
                None
            } else {
                Some((region, shard))
            }
        },
    }
}

/// The address of the game server of a region and a shard.
pub open spec fn glz_url(region: Seq<char>, shard: Seq<char>) -> Seq<char> {
    "https://glz-"@ + region + "-1."@ + shard + ".a.pvp.net"@
}

/// The address of the player's game server: the one in the log, else the one that the launch
/// arguments and the client's region give.
pub open spec fn server_url(
    log: Option<Seq<char>>,
    args: Seq<Tree>,
    fallback: Seq<char>,
) -> Option<Seq<char>> {
    let logged = match log {
        Some(log) => logged_glz_url(log),
        None => None,
    };
    match logged {
        Some(url) => Some(url),
        None => match region_and_shard(argument_texts(args), fallback) {
            Some((region, shard)) => Some(glz_url(region, shard)),
            None => None,
        },
    }
}

/// The address of the last game server that the log names.
pub fn extract_glz_url_from_log(log: &str) -> (r: Option<String>)
    ensures
        r.deep_view() == logged_glz_url(log@),
{
    proof {
        lemma_found_last(log@, "https://glz"@);
    }
    let start = match rfind(log, "https://glz") {
        Some(start) => start,
        None => {
            return None;
        },
    };
    let len: usize = log.unicode_len();
    let rest = log.substring_char(start, len);
    assert(rest@ == log@.skip(start as int));
    proof {
        lemma_found(rest@, ".a.pvp.net"@);
    }
    match find(rest, ".a.pvp.net") {
        Some(end) => {
            let stop: usize = end + ".a.pvp.net".unicode_len();
            let url = rest.substring_char(0, stop);
            assert(url@ == rest@.take(stop as int));
            Some(url.to_string())
        },
        None => None,
    }
}

/// The region and the shard that a game server's host name in the text gives.
pub fn parse_glz_host(text: &str) -> (r: Option<(String, String)>)
    ensures
        match r {
            Some(host) => glz_host(text@) == Some((host.0@, host.1@)),
            None => glz_host(text@) is None,
        },
{
    match cut_after_first(text, "glz-") {
        Some(tail) => {
            let host = cut_before_first(tail, "glz-");
            match cut_after_first(host, "-1.") {
                Some(rest) => {
                    let region = cut_before_first(host, "-1.");
                    let shard = cut_before_first(rest, ".a.pvp.net");
                    Some((region.to_string(), shard.to_string()))
                },
                None => None,
            }
        },
        None => None,
    }
}

/// What stands behind the prefix in the first argument that starts with it.
pub fn find_arg_value(args: &Vec<&str>, prefix: &str) -> (r: Option<String>)
    ensures
        r.deep_view() == argument_value(texts_of(args@), prefix@),
{
    let ghost texts = texts_of(args@);
    assert(texts.skip(0) == texts);
    for i in 0..args.len()
        invariant
            texts == texts_of(args@),
            argument_value(texts, prefix@) == argument_value(texts.skip(i as int), prefix@),
    {
        assert(texts.skip(i as int)[0] == args@[i as int]@);
        assert(texts.skip(i as int).skip(1) == texts.skip(i + 1));
        if let Some(value) = strip_prefix(args[i], prefix) {
            return Some(value.to_string());
        }
    }
    None
}

/// The shard that a region belongs to.
pub fn shard_for_region(region: &str) -> (r: &'static str)
    ensures
        r@ == region_shard(region@),
{
    if same(region, "eu") {
        "eu"
    } else if same(region, "ap") {
        "ap"
    } else if same(region, "kr") {
        "kr"
    } else {
        "na"
    }
}

/// Whether a region is one of those on the shard `na`.
fn is_american(region: &str) -> (r: bool)
    ensures
        r == american(region@),
{
    same(region, "na") || same(region, "latam") || same(region, "br")
}

/// The region that a shard's game server is named after.
pub fn normalize_glz_region(region: &str, shard: &str, fallback_region: &str) -> (r: String)
    ensures
        r@ == server_region(region@, shard@, fallback_region@),
{
    if same(shard, "eu") || same(shard, "ap") || same(shard, "kr") {
        shard.to_string()
    } else if same(shard, "na") {
        if is_american(region) {
            region.to_string()
        } else if is_american(fallback_region) {
            fallback_region.to_string()
        } else {
            "na".to_string()
        }
    } else if same(shard, "pbe") {
        assert(shard@ != "na"@);
        "na".to_string()
    } else {
        region.to_string()
    }
}

/// The arguments that are strings.
fn text_arguments(args: &Vec<Json>) -> (r: Vec<&str>)
    ensures
        texts_of(r@) == argument_texts(item_trees(args@)),
{
    let ghost trees = item_trees(args@);
    proof {
        lemma_item_trees(args@);
    }
    let mut r: Vec<&str> = Vec::new();
    for i in 0..args.len()
        invariant
            trees == item_trees(args@),
            trees.len() == args@.len(),
            forall|i: int| 0 <= i < args@.len() ==> #[trigger] trees[i] == args@[i]@,
            texts_of(r@) == argument_texts(trees.take(i as int)),
    {
        let ghost before = r@;
        assert(trees.take(i + 1).drop_last() == trees.take(i as int));
        assert(trees.take(i + 1).last() == args@[i as int]@);
        if let Some(text) = args[i].as_str() {
            r.push(text);
            assert(texts_of(r@) == texts_of(before).push(text@));
        }
    }
    assert(trees.take(args.len() as int) == trees);
    r
}

/// The region and the shard that the first argument with a game server's host name gives.
fn find_glz_host(args: &Vec<&str>) -> (r: Option<(String, String)>)
    ensures
        match r {
            Some(host) => first_glz_host(texts_of(args@)) == Some((host.0@, host.1@)),
            None => first_glz_host(texts_of(args@)) is None,
        },
{
    let ghost texts = texts_of(args@);
    assert(texts.skip(0) == texts);
    for i in 0..args.len()
        invariant
            texts == texts_of(args@),
            first_glz_host(texts) == first_glz_host(texts.skip(i as int)),
    {
        assert(texts.skip(i as int)[0] == args@[i as int]@);
        assert(texts.skip(i as int).skip(1) == texts.skip(i + 1));
        if let Some(host) = parse_glz_host(args[i]) {
            return Some(host);
        }
    }
    None
}

/// The region and the shard that the launch arguments and the client's region give.
pub fn parse_region_shard(args: &Vec<Json>, fallback_region: &str) -> (r: Result<
    (String, String),
    RiotError,
>)
    ensures
        match r {
            Ok(found) => region_and_shard(argument_texts(item_trees(args@)), fallback_region@)
                == Some((found.0@, found.1@)),
            Err(error) => error == RiotError::RegionUnknown && region_and_shard(
                argument_texts(item_trees(args@)),
                fallback_region@,
            ) is None,
        },
{
    let texts = text_arguments(args);
    if let Some(host) = find_glz_host(&texts) {
        return Ok(host);
    }
    let named = match find_arg_value(&texts, "-ares-region=") {
        Some(region) => region,
        None => match find_arg_value(&texts, "ares-region=") {
            Some(region) => region,
            None => fallback_region.to_string(),
        },
    };
    let shard = match find_arg_value(&texts, "-ares-deployment=") {
        Some(shard) => shard,
        None => match find_arg_value(&texts, "ares-deployment=") {
            Some(shard) => shard,
            None => shard_for_region(named.as_str()).to_string(),
        },
    };
    let region = normalize_glz_region(named.as_str(), shard.as_str(), fallback_region);
    if region.as_str().is_empty() || shard.as_str().is_empty() {
        Err(RiotError::RegionUnknown)
    } else {
        Ok((region, shard))
    }
}

/// The address of the player's game server: the one in the log, else the one that the launch
/// arguments and the client's region give.
pub fn resolve_glz_base(log: Option<&str>, args: &Vec<Json>, region: &str) -> (r: Result<
    String,
    RiotError,
>)
    ensures
        match r {
            Ok(url) => server_url(log.deep_view(), item_trees(args@), region@) == Some(url@),
            Err(error) => error == RiotError::RegionUnknown && server_url(
                log.deep_view(),
                item_trees(args@),
                region@,
            ) is None,
        },
{
    let logged = match log {
        Some(log) => extract_glz_url_from_log(log),
        None => None,
    };
    match logged {
        Some(url) => Ok(url),
        None => match parse_region_shard(args, region) {
            Ok((region, shard)) => Ok(
                "https://glz-".to_string().concat(region.as_str()).concat("-1.").concat(
                    shard.as_str(),
                ).concat(".a.pvp.net"),
            ),
            Err(error) => Err(error),
        },
    }
}

} // verus!
