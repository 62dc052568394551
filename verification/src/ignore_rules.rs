//! The files a subuser may not see: gitignore-style globs matched against
//! paths, as the `ignore` crate's overrides match them.

use vstd::prelude::*;

verus! {

/// `ignore::overrides::OverrideBuilder`, held opaque; its lines are known
/// only through `builder_globs`.
#[verifier::external_type_specification]
#[verifier::external_body]
pub struct ExOverrideBuilder(ignore::overrides::OverrideBuilder);

/// `ignore::overrides::Override`, held opaque; its lines are known only
/// through `override_globs`.
#[verifier::external_type_specification]
#[verifier::external_body]
pub struct ExOverride(ignore::overrides::Override);

/// Whether the override builder parses the stored line `line` as a glob.
pub uninterp spec fn glob_accepted(line: Seq<char>) -> bool;

/// The characters that `str::trim_end` removes: those with the Unicode
/// `White_Space` property.
pub open spec fn is_unicode_whitespace(c: char) -> bool {
    let u = c as u32;
    ||| 0x09 <= u <= 0x0d
    ||| u == 0x20
    ||| u == 0x85
    ||| u == 0xa0
    ||| u == 0x1680
    ||| 0x2000 <= u <= 0x200a
    ||| u == 0x2028
    ||| u == 0x2029
    ||| u == 0x202f
    ||| u == 0x205f
    ||| u == 0x3000
}

/// `s` without its trailing whitespace.
pub open spec fn trim_trailing_whitespace(s: Seq<char>) -> Seq<char>
    decreases s.len(),
{
    if s.len() > 0 && is_unicode_whitespace(s.last()) {
        trim_trailing_whitespace(s.drop_last())
    } else {
        s
    }
}

/// What a builder keeps of the line `line`, as a gitignore file's line is
/// read: nothing of a comment (a line starting with `#`) or of a line that
/// is blank once trailing whitespace is trimmed; otherwise the line, with
/// its trailing whitespace trimmed unless it ends in an escaped space.
pub open spec fn stored_line(line: Seq<char>) -> Option<Seq<char>> {
    if line.len() > 0 && line[0] == '#' {
        None
    } else {
        let t = if line.len() >= 2 && line[line.len() - 2] == '\\' && line[line.len() - 1] == ' ' {
            line
        } else {
            trim_trailing_whitespace(line)
        };
        if t.len() == 0 {
            None
        } else {
            Some(t)
        }
    }
}

/// A comment line is never stored; a stored line is never empty and is
/// the line itself or a beginning of it; a line that is not a comment and
/// does not end in whitespace is stored exactly as given.
pub proof fn law_stored_line(line: Seq<char>)
    ensures
        line.len() > 0 && line[0] == '#' ==> stored_line(line) is None,
        stored_line(line) matches Some(t) ==> t.len() > 0 && t.len() <= line.len() && t == line.subrange(
            0,
            t.len() as int,
        ),
        line.len() > 0 && line[0] != '#' && !is_unicode_whitespace(line.last()) ==> stored_line(line) == Some(line),
{
    lemma_trim_prefix(line);
    if line.len() > 0 && !is_unicode_whitespace(line.last()) {
        assert(trim_trailing_whitespace(line) == line);
    }
    assert(line.subrange(0, line.len() as int) =~= line);
}

proof fn lemma_trim_prefix(s: Seq<char>)
    ensures
        trim_trailing_whitespace(s).len() <= s.len(),
        trim_trailing_whitespace(s) == s.subrange(0, trim_trailing_whitespace(s).len() as int),
    decreases s.len(),
{
    if s.len() > 0 && is_unicode_whitespace(s.last()) {
        lemma_trim_prefix(s.drop_last());
        let t = trim_trailing_whitespace(s.drop_last());
        assert(s.drop_last().subrange(0, t.len() as int) =~= s.subrange(0, t.len() as int));
    } else {
        assert(s.subrange(0, s.len() as int) =~= s);
    }
}

/// The lines a builder stored, in order.
pub uninterp spec fn builder_globs(b: ignore::overrides::OverrideBuilder) -> Seq<Seq<char>>;

/// The lines an override was built from, in order.
pub uninterp spec fn override_globs(o: ignore::overrides::Override) -> Seq<Seq<char>>;

/// Whether an override can be built from these lines.
pub uninterp spec fn override_builds(globs: Seq<Seq<char>>) -> bool;

/// Whether the override built from `globs`, rooted at `/`, whitelists
/// `path` (a directory where `is_dir`).
pub uninterp spec fn whitelisted(globs: Seq<Seq<char>>, path: Seq<char>, is_dir: bool) -> bool;

/// A builder rooted at `/` (`OverrideBuilder::new("/")`), holding no lines.
#[verifier::external_body]
fn new_builder() -> (r: ignore::overrides::OverrideBuilder)
    ensures
        builder_globs(r) == Seq::<Seq<char>>::empty(),
{
    ignore::overrides::OverrideBuilder::new("/")
}

/// Adds a line (`OverrideBuilder::add`, which reads it as a gitignore
/// line): a comment or blank line is taken and nothing is stored; any
/// other line is stored as `stored_line` gives it where it parses as a
/// glob, and refused, leaving the builder unchanged, where it does not.
#[verifier::external_body]
fn add_glob(b: &mut ignore::overrides::OverrideBuilder, glob: &str) -> (r: bool)
    ensures
        r == match stored_line(glob@) {
            Some(t) => glob_accepted(t),
            None => true,
        },
        builder_globs(*final(b)) == match stored_line(glob@) {
            Some(t) => if glob_accepted(t) {
                builder_globs(*old(b)).push(t)
            } else {
                builder_globs(*old(b))
            },
            None => builder_globs(*old(b)),
        },
{
    b.add(glob).is_ok()
}

/// Builds the override (`OverrideBuilder::build`): it succeeds as
/// `override_builds` says, and the override holds the builder's lines.
#[verifier::external_body]
fn build(b: &ignore::overrides::OverrideBuilder) -> (r: Option<ignore::overrides::Override>)
    ensures
        r is Some <==> override_builds(builder_globs(*b)),
        r matches Some(o) ==> override_globs(o) == builder_globs(*b),
{
    b.build().ok()
}

/// Whether the override whitelists a path (`Override::matched`, then
/// `is_whitelist`).
#[verifier::external_body]
fn matches_whitelist(o: &ignore::overrides::Override, path: &str, is_dir: bool) -> (r: bool)
    ensures
        r == whitelisted(override_globs(*o), path@, is_dir),
{
    o.matched(path, is_dir).is_whitelist()
}

/// What a builder stores of `globs`, in order: each line as
/// `stored_line` gives it, where it is a glob the builder accepts.
pub open spec fn accepted(globs: Seq<Seq<char>>) -> Seq<Seq<char>>
    decreases globs.len(),
{
    if globs.len() == 0 {
        Seq::empty()
    } else {
        accepted(globs.drop_last()) + match stored_line(globs.last()) {
            Some(t) => if glob_accepted(t) {
                seq![t]
            } else {
                Seq::empty()
            },
            None => Seq::empty(),
        }
    }
}

/// The override for a list of lines holds what the builder stores of each
/// line, in order: the stored globs of two lists one after the other are
/// those of the first followed by those of the second, so adding lines
/// never drops a glob already taken.
pub proof fn law_accepted_append(a: Seq<Seq<char>>, b: Seq<Seq<char>>)
    ensures
        accepted(a + b) == accepted(a) + accepted(b),
    decreases b.len(),
{
    if b.len() == 0 {
        assert(a + b =~= a);
        assert(accepted(a) + accepted(b) =~= accepted(a));
    } else {
        law_accepted_append(a, b.drop_last());
        assert((a + b).drop_last() =~= a + b.drop_last());
        assert((a + b).last() == b.last());
        assert(accepted(a + b) =~= accepted(a) + accepted(b));
    }
}

/// A single line's override holds exactly what the builder stores of it:
/// its stored text where that is a glob the builder accepts, else nothing.
pub proof fn law_accepted_single(g: Seq<char>)
    ensures
        accepted(seq![g]) == match stored_line(g) {
            Some(t) => if glob_accepted(t) {
                seq![t]
            } else {
                Seq::<Seq<char>>::empty()
            },
            None => Seq::<Seq<char>>::empty(),
        },
{
    assert(seq![g].drop_last() =~= Seq::<Seq<char>>::empty());
    assert(accepted(Seq::<Seq<char>>::empty()) =~= Seq::<Seq<char>>::empty());
}

/// Whether `path` is hidden by the globs `globs`: an override is built
/// from the globs it accepts, and it must build and whitelist the path.
pub open spec fn spec_is_ignored(globs: Seq<Seq<char>>, path: Seq<char>, is_dir: bool) -> bool {
    override_builds(accepted(globs)) && whitelisted(accepted(globs), path, is_dir)
}

/// Tests whether `path` is hidden by the globs `globs`; comments, blank
/// lines and globs the builder refuses are passed over.
pub fn globs_hide(globs: &Vec<String>, path: &str, is_dir: bool) -> (r: bool)
    ensures
        r == spec_is_ignored(globs@.map_values(|g: String| g@), path@, is_dir),
{
    let ghost gs = globs@.map_values(|g: String| g@);
    let mut b = new_builder();
    let mut i: usize = 0;
    while i < globs.len()
        invariant
            i <= globs@.len(),
            gs == globs@.map_values(|g: String| g@),
            builder_globs(b) == accepted(gs.subrange(0, i as int)),
        decreases globs@.len() - i,
    {
        add_glob(&mut b, globs[i].as_str());
        proof {
            let next = gs.subrange(0, i + 1);
            assert(next.drop_last() =~= gs.subrange(0, i as int));
            assert(next.last() == globs@[i as int]@);
        }
        i = i + 1;
    }
    assert(gs.subrange(0, globs@.len() as int) =~= gs);
    match build(&b) {
        Some(o) => matches_whitelist(&o, path, is_dir),
        None => false,
    }
}

} // verus!
