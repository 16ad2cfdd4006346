//! Command-line arguments: where the configuration file is read from, and
//! which switches are present.

use vstd::prelude::*;
use crate::text::{has_prefix, starts_with, same_text, texts};

verus! {

/// The file read when no `--config-path` argument is given.
pub open spec fn default_config_path() -> Seq<char> {
    "config.json"@
}

/// An argument that names the configuration file: it starts with `--config-path`.
pub open spec fn is_config_flag(arg: Seq<char>) -> bool {
    has_prefix(arg, "--config-path"@)
}

/// Index of the last argument that names the configuration file, or -1.
pub open spec fn last_config_flag(args: Seq<Seq<char>>) -> int
    decreases args.len(),
{
    if args.len() == 0 {
        -1
    } else if is_config_flag(args.last()) {
        args.len() - 1
    } else {
        last_config_flag(args.drop_last())
    }
}

/// What follows the first `c` in `s`, or `None` when `s` holds no `c`.
pub open spec fn after_first(s: Seq<char>, c: char) -> Option<Seq<char>>
    decreases s.len(),
{
    if s.len() == 0 {
        None
    } else if s[0] == c {
        Some(s.drop_first())
    } else {
        after_first(s.drop_first(), c)
    }
}

/// The path that a `--config-path=<path>` argument names: all the text after
/// its first `=`; empty when the argument holds no `=`.
pub open spec fn flag_value(arg: Seq<char>) -> Seq<char> {
    match after_first(arg, '=') {
        Some(rest) => rest,
        None => Seq::empty(),
    }
}

/// The configuration path chosen by the arguments: the value of the last
/// `--config-path` argument, or `config.json` when there is none.
pub open spec fn chosen_config_path(args: Seq<Seq<char>>) -> Seq<char> {
    let i = last_config_flag(args);
    if i < 0 {
        default_config_path()
    } else {
        flag_value(args[i])
    }
}


proof fn lemma_last_config_flag_bounds(args: Seq<Seq<char>>)
    ensures
        -1 <= last_config_flag(args) < args.len(),
        last_config_flag(args) >= 0 ==> is_config_flag(args[last_config_flag(args)]),
        forall|j: int| last_config_flag(args) < j < args.len() ==> !is_config_flag(#[trigger] args[j]),
    decreases args.len(),
{
    if args.len() > 0 {
        lemma_last_config_flag_bounds(args.drop_last());
        assert forall|j: int| last_config_flag(args) < j < args.len() implies !is_config_flag(#[trigger] args[j]) by {
            if j < args.len() - 1 {
                assert(args[j] == args.drop_last()[j]);
            }
        }
    }
}

proof fn lemma_last_config_flag_prefix(args: Seq<Seq<char>>, k: int)
    requires
        0 <= k <= args.len(),
        forall|j: int| k <= j < args.len() ==> !is_config_flag(#[trigger] args[j]),
    ensures
        last_config_flag(args) == last_config_flag(args.subrange(0, k)),
    decreases args.len() - k,
{
    if k < args.len() {
        assert(!is_config_flag(args[args.len() - 1]));
        assert(args.drop_last() =~= args.subrange(0, args.len() - 1));
        assert(args.drop_last().subrange(0, k) =~= args.subrange(0, k));
        assert forall|j: int| k <= j < args.drop_last().len() implies !is_config_flag(#[trigger] args.drop_last()[j]) by {
            assert(args.drop_last()[j] == args[j]);
        }
        lemma_last_config_flag_prefix(args.drop_last(), k);
    } else {
        assert(args.subrange(0, k) =~= args);
    }
}

proof fn lemma_after_first_skip(s: Seq<char>, c: char, i: int)
    requires
        0 <= i <= s.len(),
        forall|j: int| 0 <= j < i ==> s[j] != c,
    ensures
        after_first(s, c) == after_first(s.skip(i), c),
    decreases i,
{
    if i > 0 {
        assert(s.drop_first().skip(i - 1) =~= s.skip(i));
        lemma_after_first_skip(s.drop_first(), c, i - 1);
    } else {
        assert(s.skip(0) =~= s);
    }
}

/// All the text after the first `=` of `arg`; empty when `arg` holds no `=`.
pub fn flag_argument_value(arg: &str) -> (r: String)
    ensures
        r@ == flag_value(arg@),
{
    let n = arg.unicode_len();
    let mut i: usize = 0;
    while i < n && arg.get_char(i) != '='
        invariant
            i <= n,
            n == arg@.len(),
            forall|j: int| 0 <= j < i ==> arg@[j] != '=',
        decreases n - i,
    {
        i += 1;
    }
    proof {
        lemma_after_first_skip(arg@, '=', i as int);
    }
    if i == n {
        assert(arg@.skip(n as int).len() == 0);
        return String::new();
    }
    assert(arg@.skip(i as int)[0] == '=');
    assert(arg@.skip(i as int).drop_first() =~= arg@.subrange(i + 1, n as int));
    let tail = arg.substring_char(i + 1, n);
    String::from_str(tail)
}

/// The configuration file named by the command line: the value of the last
/// argument that starts with `--config-path` (all the text after its first
/// `=`), or `config.json` when no argument starts so.
pub fn config_path(args: &[String]) -> (r: String)
    ensures
        r@ == chosen_config_path(texts(args@)),
{
    let ghost view = texts(args@);
    let mut i: usize = args.len();
    while i > 0 && !starts_with(args[i - 1].as_str(), "--config-path")
        invariant
            i <= args@.len(),
            view == texts(args@),
            forall|j: int| i <= j < args@.len() ==> !is_config_flag(#[trigger] view[j]),
        decreases i,
    {
        i -= 1;
    }
    proof {
        lemma_last_config_flag_prefix(view, i as int);
        lemma_last_config_flag_bounds(view.subrange(0, i as int));
    }
    if i == 0 {
        assert(view.subrange(0, 0).len() == 0);
        return String::from_str("config.json");
    }
    proof {
        let pre = view.subrange(0, i as int);
        assert(pre.drop_last() =~= view.subrange(0, i - 1));
        assert(pre.last() == view[i - 1]);
    }
    flag_argument_value(args[i - 1].as_str())
}

/// Tells whether `flag` is one of the arguments.
pub fn has_flag(args: &[String], flag: &str) -> (r: bool)
    ensures
        r == texts(args@).contains(flag@),
{
    let ghost view = texts(args@);
    let mut i: usize = 0;
    while i < args.len()
        invariant
            i <= args@.len(),
            view == texts(args@),
            forall|j: int| 0 <= j < i ==> view[j] != flag@,
        decreases args@.len() - i,
    {
        if same_text(args[i].as_str(), flag) {
            assert(view[i as int] == flag@);
            return true;
        }
        i += 1;
    }
    false
}

} // verus!

verus! {

/// An argument `--config-path=<path>` placed after all others decides the
/// configuration file: it is `<path>`, whatever `<path>` holds.
pub proof fn lemma_last_config_path_wins(args: Seq<Seq<char>>, path: Seq<char>)
    ensures
        chosen_config_path(args.push("--config-path"@ + "="@ + path)) == path,
{
    reveal_strlit("--config-path");
    reveal_strlit("=");
    let flag = "--config-path"@;
    let arg = flag + "="@ + path;
    let all = args.push(arg);
    assert(arg.subrange(0, flag.len() as int) =~= flag);
    assert(is_config_flag(arg));
    assert(all.drop_last() =~= args);
    assert(last_config_flag(all) == args.len());
    assert forall|j: int| 0 <= j < flag.len() implies arg[j] != '=' by {
        assert(arg[j] == flag[j]);
    }
    lemma_after_first_skip(arg, '=', flag.len() as int);
    assert(arg.skip(flag.len() as int)[0] == '=');
    assert(arg.skip(flag.len() as int).drop_first() =~= path);
}

/// The last argument that starts with `--config-path` decides, wherever it
/// stands: with any arguments before it and any arguments after it that do
/// not start with `--config-path`, the configuration file is the text after
/// its first `=`.
pub proof fn lemma_last_flag_decides(pre: Seq<Seq<char>>, path: Seq<char>, post: Seq<Seq<char>>)
    requires
        forall|j: int| 0 <= j < post.len() ==> !has_prefix(#[trigger] post[j], "--config-path"@),
    ensures
        chosen_config_path(pre + seq!["--config-path"@ + "="@ + path] + post) == path,
{
    let arg = "--config-path"@ + "="@ + path;
    let head = pre.push(arg);
    let all = pre + seq![arg] + post;
    let k = head.len() as int;
    assert(pre + seq![arg] =~= head);
    assert forall|j: int| k <= j < all.len() implies !is_config_flag(#[trigger] all[j]) by {
        assert(all[j] == post[j - k]);
    }
    lemma_last_config_flag_prefix(all, k);
    assert(all.subrange(0, k) =~= head);
    lemma_last_config_path_wins(pre, path);
    lemma_last_config_flag_bounds(head);
    assert(all[pre.len() as int] == head[pre.len() as int]);
}

/// Without any argument that starts with `--config-path`, the configuration
/// file is `config.json`, whatever the other arguments are.
pub proof fn lemma_no_flag_reads_default(args: Seq<Seq<char>>)
    requires
        forall|j: int| 0 <= j < args.len() ==> !has_prefix(#[trigger] args[j], "--config-path"@),
    ensures
        chosen_config_path(args) == "config.json"@,
{
    assert forall|j: int| 0 <= j < args.len() implies !is_config_flag(#[trigger] args[j]) by {}
    lemma_last_config_flag_prefix(args, 0);
    assert(args.subrange(0, 0).len() == 0);
}

} // verus!
