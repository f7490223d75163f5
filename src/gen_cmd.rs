use vstd::prelude::*;

use crate::names::{lemma_views_push, views_of};
use crate::text::owned;

verus! {

/// The arguments of a run of the bindings generator on `rs_file`, writing
/// into and including from `dir`, followed by the extra arguments for clang.
pub open spec fn gen_cmd_args(rs_file: Seq<char>, dir: Seq<char>, extra: Seq<Seq<char>>) -> Seq<
    Seq<char>,
> {
    seq!["-o"@, dir, "-I"@, dir, rs_file, "--gen-rs-complete"@, "--gen-cpp"@, "--"@] + extra
}

/// The arguments of a run of the bindings generator.
pub fn format_gen_cmd(rs_file: &str, dir: &str, extra_clang_args: &[&str]) -> (r: Vec<String>)
    ensures
        views_of(r@) == gen_cmd_args(
            rs_file@,
            dir@,
            extra_clang_args@.map_values(|s: &str| s@),
        ),
{
    let ghost extra = extra_clang_args@.map_values(|s: &str| s@);
    let fixed = [
        owned("-o"),
        owned(dir),
        owned("-I"),
        owned(dir),
        owned(rs_file),
        owned("--gen-rs-complete"),
        owned("--gen-cpp"),
        owned("--"),
    ];
    let mut args: Vec<String> = Vec::new();
    let mut i: usize = 0;
    while i < 8
        invariant
            i <= 8,
            views_of(args@) == seq![
                "-o"@,
                dir@,
                "-I"@,
                dir@,
                rs_file@,
                "--gen-rs-complete"@,
                "--gen-cpp"@,
                "--"@,
            ].subrange(0, i as int),
            fixed@.len() == 8,
            fixed@[0]@ == "-o"@,
            fixed@[1]@ == dir@,
            fixed@[2]@ == "-I"@,
            fixed@[3]@ == dir@,
            fixed@[4]@ == rs_file@,
            fixed@[5]@ == "--gen-rs-complete"@,
            fixed@[6]@ == "--gen-cpp"@,
            fixed@[7]@ == "--"@,
        decreases 8 - i,
    {
        let s = fixed[i].clone();
        proof {
            lemma_views_push(args@, s);
        }
        args.push(s);
        assert(views_of(args@) =~= seq![
            "-o"@,
            dir@,
            "-I"@,
            dir@,
            rs_file@,
            "--gen-rs-complete"@,
            "--gen-cpp"@,
            "--"@,
        ].subrange(0, i + 1));
        i = i + 1;
    }
    let ghost head = views_of(args@);
    let mut k: usize = 0;
    while k < extra_clang_args.len()
        invariant
            extra == extra_clang_args@.map_values(|s: &str| s@),
            k <= extra_clang_args.len(),
            views_of(args@) == head + extra.subrange(0, k as int),
        decreases extra_clang_args.len() - k,
    {
        let s = owned(extra_clang_args[k]);
        proof {
            lemma_views_push(args@, s);
        }
        args.push(s);
        assert(views_of(args@) =~= head + extra.subrange(0, k + 1));
        k = k + 1;
    }
    assert(extra.subrange(0, k as int) =~= extra);
    assert(head =~= seq![
        "-o"@,
        dir@,
        "-I"@,
        dir@,
        rs_file@,
        "--gen-rs-complete"@,
        "--gen-cpp"@,
        "--"@,
    ]);
    args
}

} // verus!
