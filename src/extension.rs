//! Which command opens a file, by extension.
use vstd::prelude::*;

verus! {

/// What `str::to_lowercase` returns for a string.
pub uninterp spec fn lower_of(s: Seq<char>) -> Seq<char>;

/// Relies on str::to_lowercase: the lowercase form of each character, which
/// depends on the characters alone.
#[verifier::external_body]
fn lowercase(s: &str) -> (r: String)
    ensures
        r@ == lower_of(s@),
{
    s.to_lowercase()
}

pub open spec fn command_view(c: (String, Vec<String>)) -> (Seq<char>, Seq<Seq<char>>) {
    (c.0@, c.1@.map_values(|e: String| e@))
}

/// `(extension, command)` for each extension that a command lists.
pub open spec fn pairs_of(cmd: Seq<char>, exts: Seq<Seq<char>>) -> Seq<(Seq<char>, Seq<char>)> {
    exts.map_values(|e: Seq<char>| (lower_of(e), cmd))
}

/// The pairs of the first `n` commands, in order.
pub open spec fn extension_pairs(cfg: Seq<(Seq<char>, Seq<Seq<char>>)>, n: nat) -> Seq<(Seq<char>, Seq<char>)>
    decreases n,
{
    if n == 0 || n > cfg.len() {
        Seq::empty()
    } else {
        extension_pairs(cfg, (n - 1) as nat) + pairs_of(cfg[n - 1].0, cfg[n - 1].1)
    }
}

pub open spec fn pair_view(p: (String, String)) -> (Seq<char>, Seq<char>) {
    (p.0@, p.1@)
}

/// Turns the configured commands, each with the extensions it opens, into
/// `(lowercase extension, command)` pairs in configuration order; collected
/// into a map, a later pair for the same extension replaces an earlier one.
pub fn to_extension_map(config: &Option<Vec<(String, Vec<String>)>>) -> (r: Option<
    Vec<(String, String)>,
>)
    ensures
        config is None ==> r is None,
        config matches Some(c) ==> r matches Some(m) && m@.map_values(
            |p: (String, String)| pair_view(p),
        ) == extension_pairs(
            c@.map_values(|x: (String, Vec<String>)| command_view(x)),
            c@.len(),
        ),
{
    match config {
        None => None,
        Some(config) => {
            let ghost cfg = config@.map_values(|x: (String, Vec<String>)| command_view(x));
            let mut new_map: Vec<(String, String)> = Vec::new();
            let mut i: usize = 0;
            while i < config.len()
                invariant
                    i <= config@.len(),
                    cfg == config@.map_values(|x: (String, Vec<String>)| command_view(x)),
                    new_map@.map_values(|p: (String, String)| pair_view(p)) == extension_pairs(
                        cfg,
                        i as nat,
                    ),
                decreases config@.len() - i,
            {
                let command = &config[i].0;
                let extensions = &config[i].1;
                let ghost start = new_map@.map_values(|p: (String, String)| pair_view(p));
                let ghost exts = extensions@.map_values(|e: String| e@);
                let mut k: usize = 0;
                while k < extensions.len()
                    invariant
                        k <= extensions@.len(),
                        exts == extensions@.map_values(|e: String| e@),
                        new_map@.map_values(|p: (String, String)| pair_view(p)) == start
                            + pairs_of(command@, exts).take(k as int),
                    decreases extensions@.len() - k,
                {
                    let ghost before = new_map@.map_values(|p: (String, String)| pair_view(p));
                    let ext = lowercase(extensions[k].as_str());
                    new_map.push((ext, command.clone()));
                    assert(new_map@.map_values(|p: (String, String)| pair_view(p)) =~= before.push(
                        (lower_of(exts[k as int]), command@),
                    ));
                    assert(pairs_of(command@, exts).take(k + 1) =~= pairs_of(command@, exts).take(
                        k as int,
                    ).push((lower_of(exts[k as int]), command@)));
                    k = k + 1;
                }
                assert(pairs_of(command@, exts).take(k as int) =~= pairs_of(command@, exts));
                assert(cfg[i as int] == command_view(config@[i as int]));
                i = i + 1;
            }
            Some(new_map)
        },
    }
}

} // verus!
