//! How many times each command has been run in this session, and the
//! reply to `~command_usage`.

use vstd::prelude::*;
use crate::table::NamedTable;
use crate::text::{decimal, decimal_string};

verus! {

/// The number of runs recorded for `name`: what is stored, or zero.
pub open spec fn usage_count(m: Map<Seq<char>, u64>, name: Seq<char>) -> u64 {
    if m.dom().contains(name) {
        m[name]
    } else {
        0
    }
}

/// The counts after one more run of `name`.
pub open spec fn recorded(m: Map<Seq<char>, u64>, name: Seq<char>) -> Map<Seq<char>, u64> {
    m.insert(name, (usage_count(m, name) + 1) as u64)
}

/// The reply to `~command_usage` when no command name was given.
pub open spec fn missing_argument_text() -> Seq<char> {
    "I require an argument to run this command."@
}

/// The reply to `~command_usage <name>` when `name` has been run `amount` times.
pub open spec fn usage_reply_text(name: Seq<char>, amount: u64) -> Seq<char> {
    if amount == 0 {
        "The command `"@ + name + "` has not yet been used."@
    } else {
        "The command `"@ + name + "` has been used "@ + decimal(amount as nat) + " time/s this session!"@
    }
}

/// Counts of the commands run, by command name.
pub struct CommandCounter {
    counts: NamedTable<u64>,
}

impl View for CommandCounter {
    type V = Map<Seq<char>, u64>;

    closed spec fn view(&self) -> Map<Seq<char>, u64> {
        self.counts@
    }
}

impl CommandCounter {
    /// A counter holds counts for finitely many commands.
    pub proof fn lemma_counts_finite(&self)
        ensures
            self@.dom().finite(),
    {
        self.counts.lemma_contents_finite();
    }

    /// A counter in which no command has been run.
    pub fn new() -> (r: Self)
        ensures
            r@ == Map::<Seq<char>, u64>::empty(),
    {
        CommandCounter { counts: NamedTable::new() }
    }

    /// How many times `name` has been run.
    pub fn usage(&self, name: &str) -> (r: u64)
        ensures
            r == usage_count(self@, name@),
    {
        match self.counts.get(name) {
            Some(c) => *c,
            None => 0,
        }
    }

    /// Records one more run of `name`.
    pub fn record(&mut self, name: &str)
        requires
            usage_count(old(self)@, name@) < u64::MAX,
        ensures
            final(self)@ == recorded(old(self)@, name@),
    {
        let c = self.usage(name);
        self.counts.insert(name, c + 1);
    }
}

/// The reply to `~command_usage <name>`: that `name` has not been run yet,
/// or how many times it has been run.
pub fn usage_reply(name: &str, amount: u64) -> (r: String)
    ensures
        r@ == usage_reply_text(name@, amount),
{
    let mut s = String::from_str("The command `");
    s.append(name);
    if amount == 0 {
        s.append("` has not yet been used.");
    } else {
        s.append("` has been used ");
        let n = decimal_string(amount);
        s.append(n.as_str());
        s.append(" time/s this session!");
    }
    s
}

/// The reply to `~command_usage` when no command name was given.
pub fn missing_argument_reply() -> (r: String)
    ensures
        r@ == missing_argument_text(),
{
    String::from_str("I require an argument to run this command.")
}

/// The reply to `~command_usage`, given the argument (if one was given)
/// and the counts of this session.
pub fn command_usage_reply(counter: &CommandCounter, argument: Option<&str>) -> (r: String)
    ensures
        argument is None ==> r@ == missing_argument_text(),
        argument matches Some(name) ==> r@ == usage_reply_text(name@, usage_count(counter@, name@)),
{
    match argument {
        None => missing_argument_reply(),
        Some(name) => {
            let amount = counter.usage(name);
            usage_reply(name, amount)
        },
    }
}

/// A run of a command adds one to its own count, and to no other.
pub proof fn law_record_counts_one_run(m: Map<Seq<char>, u64>, name: Seq<char>, other: Seq<char>)
    requires
        usage_count(m, name) < u64::MAX,
    ensures
        usage_count(recorded(m, name), name) == usage_count(m, name) + 1,
        other != name ==> usage_count(recorded(m, other), name) == usage_count(m, name),
{
}

/// In a fresh counter every command has been run zero times.
pub proof fn law_fresh_counter_is_zero(name: Seq<char>)
    ensures
        usage_count(Map::<Seq<char>, u64>::empty(), name) == 0,
{
}

/// The counts after runs of the commands `names`, in order.
pub open spec fn recorded_all(m: Map<Seq<char>, u64>, names: Seq<Seq<char>>) -> Map<Seq<char>, u64>
    decreases names.len(),
{
    if names.len() == 0 {
        m
    } else {
        recorded(recorded_all(m, names.drop_last()), names.last())
    }
}

/// How many of `names` are `x`.
pub open spec fn occurrences(names: Seq<Seq<char>>, x: Seq<char>) -> nat
    decreases names.len(),
{
    if names.len() == 0 {
        0
    } else {
        occurrences(names.drop_last(), x) + if names.last() == x { 1nat } else { 0nat }
    }
}

/// No count goes past `u64::MAX` over the runs `names` from `m`.
pub open spec fn runs_fit(m: Map<Seq<char>, u64>, names: Seq<Seq<char>>) -> bool {
    forall|x: Seq<char>| usage_count(m, x) + #[trigger] occurrences(names, x) <= u64::MAX
}

/// The sum of all counts of a finite map.
pub open spec fn total(m: Map<Seq<char>, u64>) -> nat
    decreases m.dom().len(),
    when m.dom().finite()
{
    if m.dom().len() == 0 {
        0
    } else {
        let k = m.dom().choose();
        (m[k] + total(m.remove(k))) as nat
    }
}

proof fn lemma_total_remove(m: Map<Seq<char>, u64>, k: Seq<char>)
    requires
        m.dom().finite(),
        m.dom().contains(k),
    ensures
        total(m) == m[k] + total(m.remove(k)),
    decreases m.dom().len(),
{
    let c = m.dom().choose();
    if c != k {
        lemma_total_remove(m.remove(c), k);
        lemma_total_remove(m.remove(k), c);
        assert(m.remove(c).remove(k) =~= m.remove(k).remove(c));
    }
}

/// One run adds exactly one to the sum of all counts.
pub proof fn law_record_adds_one_to_total(m: Map<Seq<char>, u64>, name: Seq<char>)
    requires
        m.dom().finite(),
        usage_count(m, name) < u64::MAX,
    ensures
        recorded(m, name).dom().finite(),
        total(recorded(m, name)) == total(m) + 1,
{
    let r = recorded(m, name);
    lemma_total_remove(r, name);
    if m.dom().contains(name) {
        lemma_total_remove(m, name);
        assert(r.remove(name) =~= m.remove(name));
    } else {
        assert(r.remove(name) =~= m);
    }
}

/// After runs of `names`, each command's count has grown by the number of
/// times it was run.
pub proof fn law_runs_count_occurrences(m: Map<Seq<char>, u64>, names: Seq<Seq<char>>, x: Seq<char>)
    requires
        runs_fit(m, names),
    ensures
        usage_count(recorded_all(m, names), x) == usage_count(m, x) + occurrences(names, x),
    decreases names.len(),
{
    if names.len() > 0 {
        let prefix = names.drop_last();
        let last = names.last();
        assert forall|y: Seq<char>| usage_count(m, y) + #[trigger] occurrences(prefix, y) <= u64::MAX by {
            assert(occurrences(prefix, y) <= occurrences(names, y));
        }
        law_runs_count_occurrences(m, prefix, x);
        law_runs_count_occurrences(m, prefix, last);
        assert(usage_count(m, last) + occurrences(names, last) <= u64::MAX);
    }
}

/// Counts never shrink over runs.
pub proof fn law_counts_only_grow(m: Map<Seq<char>, u64>, names: Seq<Seq<char>>, x: Seq<char>)
    requires
        runs_fit(m, names),
    ensures
        usage_count(recorded_all(m, names), x) >= usage_count(m, x),
{
    law_runs_count_occurrences(m, names, x);
}

/// The order of the runs does not matter: runs with the same number of
/// runs of every command end with the same counts.
pub proof fn law_run_order_does_not_matter(
    m: Map<Seq<char>, u64>,
    names1: Seq<Seq<char>>,
    names2: Seq<Seq<char>>,
    x: Seq<char>,
)
    requires
        runs_fit(m, names1),
        forall|y: Seq<char>| #[trigger] occurrences(names1, y) == occurrences(names2, y),
    ensures
        usage_count(recorded_all(m, names1), x) == usage_count(recorded_all(m, names2), x),
{
    assert forall|y: Seq<char>| usage_count(m, y) + #[trigger] occurrences(names2, y) <= u64::MAX by {
        assert(occurrences(names1, y) == occurrences(names2, y));
    }
    law_runs_count_occurrences(m, names1, x);
    law_runs_count_occurrences(m, names2, x);
}

/// The runs `names` add exactly their number to the sum of all counts.
pub proof fn law_runs_add_to_total(m: Map<Seq<char>, u64>, names: Seq<Seq<char>>)
    requires
        m.dom().finite(),
        runs_fit(m, names),
    ensures
        recorded_all(m, names).dom().finite(),
        total(recorded_all(m, names)) == total(m) + names.len(),
    decreases names.len(),
{
    if names.len() > 0 {
        let prefix = names.drop_last();
        let last = names.last();
        assert forall|y: Seq<char>| usage_count(m, y) + #[trigger] occurrences(prefix, y) <= u64::MAX by {
            assert(occurrences(prefix, y) <= occurrences(names, y));
        }
        law_runs_add_to_total(m, prefix);
        law_runs_count_occurrences(m, prefix, last);
        assert(usage_count(m, last) + occurrences(names, last) <= u64::MAX);
        law_record_adds_one_to_total(recorded_all(m, prefix), last);
    }
}

/// After `k >= 1` runs of the command `c` in a fresh session, `~command_usage c`
/// answers that it has been used `k` times.
pub proof fn law_usage_reply_after_runs(names: Seq<Seq<char>>, c: Seq<char>)
    requires
        runs_fit(Map::<Seq<char>, u64>::empty(), names),
        occurrences(names, c) >= 1,
    ensures
        usage_reply_text(c, usage_count(recorded_all(Map::<Seq<char>, u64>::empty(), names), c))
            == "The command `"@ + c + "` has been used "@ + decimal(occurrences(names, c)) + " time/s this session!"@,
{
    law_runs_count_occurrences(Map::<Seq<char>, u64>::empty(), names, c);
}

/// A command never run is reported as not yet used; a command run
/// `amount > 0` times is reported with that number.
pub proof fn law_usage_reply_reports_the_count(name: Seq<char>, amount: u64)
    ensures
        amount == 0 ==> usage_reply_text(name, amount) == "The command `"@ + name + "` has not yet been used."@,
        amount > 0 ==> usage_reply_text(name, amount)
            == "The command `"@ + name + "` has been used "@ + decimal(amount as nat) + " time/s this session!"@,
{
}

} // verus!
