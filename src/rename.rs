use vstd::prelude::*;

verus! {

/// The name an entry called `source` takes under `prefix`: the prefix, an
/// underscore, then the original name.
pub open spec fn dest_name_of(prefix: Seq<char>, source: Seq<char>) -> Seq<char> {
    prefix + seq!['_'] + source
}

/// The line that reports the rename of `source` to `dest`.
pub open spec fn report_line_of(source: Seq<char>, dest: Seq<char>) -> Seq<char> {
    source + seq![' ', '-', '>', ' '] + dest
}

/// What is done with one entry: its name, its new name, and whether the
/// rename is carried out (it is not on a dry run).
pub open spec fn step_of(prefix: Seq<char>, source: Seq<char>, dry_run: bool) -> (Seq<char>, Seq<
    char,
>, bool) {
    (source, dest_name_of(prefix, source), !dry_run)
}

/// The steps for a directory's entries, in the order they are listed.
pub open spec fn plan_of(prefix: Seq<char>, sources: Seq<Seq<char>>, dry_run: bool) -> Seq<
    (Seq<char>, Seq<char>, bool),
> {
    sources.map_values(|s: Seq<char>| step_of(prefix, s, dry_run))
}

/// The report lines that a sequence of steps prints, one per step.
pub open spec fn reports_of(steps: Seq<(Seq<char>, Seq<char>, bool)>) -> Seq<Seq<char>> {
    steps.map_values(|st: (Seq<char>, Seq<char>, bool)| report_line_of(st.0, st.1))
}

/// One planned rename inside a directory.
pub struct RenameStep {
    /// The entry's current name.
    pub source: String,
    /// The name it is given.
    pub dest: String,
    /// Whether the rename is carried out, or only reported.
    pub perform: bool,
}

impl View for RenameStep {
    type V = (Seq<char>, Seq<char>, bool);

    open spec fn view(&self) -> (Seq<char>, Seq<char>, bool) {
        (self.source@, self.dest@, self.perform)
    }
}

/// The new name of `source` under `prefix`.
pub fn dest_name(prefix: &str, source: &str) -> (r: String)
    ensures
        r@ == dest_name_of(prefix@, source@),
{
    let mut r = prefix.to_owned();
    r.append("_");
    r.append(source);
    proof {
        reveal_strlit("_");
    }
    assert(r@ =~= dest_name_of(prefix@, source@));
    r
}

/// The report line `source -> dest`.
pub fn report_line(source: &str, dest: &str) -> (r: String)
    ensures
        r@ == report_line_of(source@, dest@),
{
    let mut r = source.to_owned();
    r.append(" -> ");
    r.append(dest);
    proof {
        reveal_strlit(" -> ");
    }
    assert(r@ =~= report_line_of(source@, dest@));
    r
}

impl RenameStep {
    /// Decides what is done with the entry `source`: it is renamed to the
    /// prefixed name, unless this is a dry run.
    pub fn plan(prefix: &str, source: &str, dry_run: bool) -> (r: RenameStep)
        ensures
            r@ == step_of(prefix@, source@, dry_run),
    {
        RenameStep { source: source.to_owned(), dest: dest_name(prefix, source), perform: !dry_run }
    }

    /// The line printed for this step, before any rename.
    pub fn report(&self) -> (r: String)
        ensures
            r@ == report_line_of(self.source@, self.dest@),
    {
        report_line(self.source.as_str(), self.dest.as_str())
    }
}

/// The steps for entries named `sources`, in the same order.
pub fn plan_renames(prefix: &str, sources: &Vec<String>, dry_run: bool) -> (r: Vec<RenameStep>)
    ensures
        r@.map_values(|st: RenameStep| st@) == plan_of(prefix@, sources@.map_values(|s: String| s@), dry_run),
{
    let mut r: Vec<RenameStep> = Vec::new();
    let mut i: usize = 0;
    while i < sources.len()
        invariant
            i <= sources@.len(),
            r@.len() == i,
            forall|k: int| 0 <= k < i ==> #[trigger] r@[k]@ == step_of(prefix@, sources@[k]@, dry_run),
        decreases sources@.len() - i,
    {
        r.push(RenameStep::plan(prefix, sources[i].as_str(), dry_run));
        i = i + 1;
    }
    assert(r@.map_values(|st: RenameStep| st@) =~= plan_of(prefix@, sources@.map_values(|s: String| s@), dry_run));
    r
}

/// The report lines of all the steps, in order.
pub fn report_lines(steps: &Vec<RenameStep>) -> (r: Vec<String>)
    ensures
        r@.map_values(|l: String| l@) == reports_of(steps@.map_values(|st: RenameStep| st@)),
{
    let mut r: Vec<String> = Vec::new();
    let mut i: usize = 0;
    while i < steps.len()
        invariant
            i <= steps@.len(),
            r@.len() == i,
            forall|k: int| 0 <= k < i ==> #[trigger] r@[k]@ == report_line_of(steps@[k].source@, steps@[k].dest@),
        decreases steps@.len() - i,
    {
        r.push(steps[i].report());
        i = i + 1;
    }
    assert(r@.map_values(|l: String| l@) =~= reports_of(steps@.map_values(|st: RenameStep| st@)));
    r
}

/// A dry run prints the same report lines as a real run over the same
/// entries, and renames nothing.
pub proof fn lemma_dry_run_reports_alike(prefix: Seq<char>, sources: Seq<Seq<char>>)
    ensures
        reports_of(plan_of(prefix, sources, true)) == reports_of(plan_of(prefix, sources, false)),
        forall|k: int| 0 <= k < sources.len() ==> !(#[trigger] plan_of(prefix, sources, true)[k]).2,
{
    assert(reports_of(plan_of(prefix, sources, true)) =~= reports_of(plan_of(prefix, sources, false)));
}

/// Renaming is not idempotent: a second run with the same prefix puts the
/// prefix on twice, and so gives a name unlike the first run's.
pub proof fn lemma_second_run_prefixes_twice(prefix: Seq<char>, source: Seq<char>)
    ensures
        dest_name_of(prefix, dest_name_of(prefix, source)) == prefix + seq!['_'] + prefix + seq!['_'] + source,
        dest_name_of(prefix, dest_name_of(prefix, source)) != dest_name_of(prefix, source),
{
    assert(dest_name_of(prefix, dest_name_of(prefix, source)) =~= prefix + seq!['_'] + prefix + seq!['_'] + source);
    assert(dest_name_of(prefix, dest_name_of(prefix, source)).len() > dest_name_of(prefix, source).len());
}

} // verus!
