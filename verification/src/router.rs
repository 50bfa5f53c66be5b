//! The buckets of one input file: which sink a classified record goes to,
//! when a sink has to be opened, and what its file is called.

use crate::classifier::{Classified, Outcome};
use vstd::prelude::*;
use vstd::string::StringExecFns;

verus! {

/// The name of the good output of the file `stem` under `prefix`.
pub open spec fn good_name(stem: Seq<char>, prefix: Seq<char>) -> Seq<char> {
    stem + "_"@ + prefix + "_good.txt"@
}

/// The name of the bad bucket `label` of the file `stem` under `prefix`.
pub open spec fn bad_name(stem: Seq<char>, prefix: Seq<char>, label: Seq<char>) -> Seq<char> {
    stem + "_"@ + prefix + "_"@ + label + "_bad.txt"@
}

/// The name of the output that holds the records of `outcome`.
pub open spec fn sink_name(stem: Seq<char>, prefix: Seq<char>, outcome: Option<Seq<char>>) -> Seq<
    char,
> {
    match outcome {
        None => good_name(stem, prefix),
        Some(label) => bad_name(stem, prefix, label),
    }
}

/// The line as it is written to a sink: followed by a line feed.
pub open spec fn terminated(line: Seq<char>) -> Seq<char> {
    line + "\n"@
}

/// What the caller has to do with a record that was routed.
#[derive(Debug, Clone, PartialEq, Eq)]
pub enum SinkAction {
    /// Append to the sink of this number, which is open.
    Existing(usize),
    /// Open the file `name` in append mode as the sink of this number,
    /// then append to it.
    Open { sink: usize, name: String },
}

impl SinkAction {
    /// The number of the sink that the record goes to.
    pub open spec fn sink(self) -> usize {
        match self {
            SinkAction::Existing(sink) => sink,
            SinkAction::Open { sink, name } => sink,
        }
    }

    /// The number of the sink that the record goes to.
    pub fn index(&self) -> (sink: usize)
        ensures
            sink == self.sink(),
    {
        match self {
            SinkAction::Existing(sink) => *sink,
            SinkAction::Open { sink, name } => *sink,
        }
    }
}

/// The one write that a record causes: what to do about its sink, and the
/// text to append.
#[derive(Debug, Clone, PartialEq, Eq)]
pub struct Placement {
    pub action: SinkAction,
    pub text: String,
}

/// The sinks of one input file. Sinks are numbered in the order in which
/// they were opened; sink 0 is the good output, and no two sinks hold the
/// same outcome.
#[derive(Debug)]
pub struct BucketRouter {
    stem: String,
    prefix: String,
    keys: Vec<Outcome>,
}

/// Whether two outcomes name the same bucket.
pub fn same_outcome(a: &Outcome, b: &Outcome) -> (same: bool)
    ensures
        same == (a@ == b@),
{
    match a {
        Outcome::Good => match b {
            Outcome::Good => true,
            Outcome::Bad(_) => false,
        },
        Outcome::Bad(x) => match b {
            Outcome::Good => false,
            Outcome::Bad(y) => x.eq(y),
        },
    }
}

/// Appends the line feed that ends a written record.
pub fn terminate(line: String) -> (out: String)
    ensures
        out@ == terminated(line@),
{
    let mut out = line;
    out.append("\n");
    out
}

impl BucketRouter {
    /// The stem of the input file's name.
    pub closed spec fn stem_text(&self) -> Seq<char> {
        self.stem@
    }

    /// The prefix of the output names.
    pub closed spec fn prefix_text(&self) -> Seq<char> {
        self.prefix@
    }

    /// The outcomes that have a sink, by sink number.
    pub closed spec fn outcomes(&self) -> Seq<Option<Seq<char>>> {
        self.keys@.map_values(|key: Outcome| key@)
    }

    /// The good sink comes first, and no two sinks share an outcome.
    #[verifier::type_invariant]
    spec fn distinct(&self) -> bool {
        &&& self.outcomes().len() >= 1
        &&& self.outcomes()[0] is None
        &&& forall|i: int, j: int|
            0 <= i < j < self.outcomes().len() ==> self.outcomes()[i] != self.outcomes()[j]
    }

    /// The router of a file before any record: the good sink alone.
    pub fn new(stem: String, prefix: String) -> (router: BucketRouter)
        ensures
            router.stem_text() == stem@,
            router.prefix_text() == prefix@,
            router.outcomes() == seq![None::<Seq<char>>],
    {
        let keys = vec![Outcome::Good];
        assert(keys@.map_values(|key: Outcome| key@) =~= seq![None::<Seq<char>>]);
        BucketRouter { stem, prefix, keys }
    }

    /// The outcomes that have a sink, by sink number: the good one first,
    /// and none twice.
    pub fn keys(&self) -> (keys: &Vec<Outcome>)
        ensures
            keys@.map_values(|key: Outcome| key@) == self.outcomes(),
            keys@.len() >= 1,
            keys@[0] is Good,
            forall|i: int, j: int| 0 <= i < j < keys@.len() ==> keys@[i]@ != keys@[j]@,
    {
        proof {
            use_type_invariant(self);
            assert forall|i: int, j: int| 0 <= i < j < self.keys@.len() implies self.keys@[i]@
                != self.keys@[j]@ by {
                assert(self.outcomes()[i] == self.keys@[i]@);
                assert(self.outcomes()[j] == self.keys@[j]@);
            }
        }
        &self.keys
    }

    /// The name of the file behind the sink of `outcome`.
    pub fn file_name(&self, outcome: &Outcome) -> (name: String)
        ensures
            name@ == sink_name(self.stem_text(), self.prefix_text(), outcome@),
    {
        let mut name = self.stem.clone();
        name.append("_");
        name.append(self.prefix.as_str());
        match outcome {
            Outcome::Good => {
                name.append("_good.txt");
            },
            Outcome::Bad(label) => {
                name.append("_");
                name.append(label.as_str());
                name.append("_bad.txt");
            },
        }
        name
    }

    /// What routing a record of `outcome` makes of the router `self`: the
    /// record goes to exactly one sink, since the sink of `action` is the
    /// only one of `after` that holds its outcome. Sinks that exist keep
    /// their number and outcome, and an outcome seen for the first time
    /// gets a new sink with the next number and the file name of its bucket.
    pub open spec fn routed(
        &self,
        outcome: Option<Seq<char>>,
        after: BucketRouter,
        action: SinkAction,
    ) -> bool {
        &&& after.stem_text() == self.stem_text()
        &&& after.prefix_text() == self.prefix_text()
        &&& action.sink() < after.outcomes().len()
        &&& forall|s: int|
            0 <= s < after.outcomes().len() ==> (#[trigger] after.outcomes()[s] == outcome <==> s
                == action.sink())
        &&& self.outcomes().contains(outcome) ==> {
            &&& action is Existing
            &&& after.outcomes() == self.outcomes()
        }
        &&& !self.outcomes().contains(outcome) ==> {
            &&& action matches SinkAction::Open { sink, name }
            &&& sink == self.outcomes().len()
            &&& name@ == sink_name(self.stem_text(), self.prefix_text(), outcome)
            &&& after.outcomes() == self.outcomes().push(outcome)
        }
    }

    /// Finds the sink of `outcome`, adding one where the outcome is seen
    /// for the first time, and returns the router as it is afterwards.
    pub fn route(self, outcome: Outcome) -> (r: (BucketRouter, SinkAction))
        ensures
            self.routed(outcome@, r.0, r.1),
    {
        proof {
            use_type_invariant(&self);
        }
        let mut s: usize = 0;
        while s < self.keys.len()
            invariant
                s <= self.keys.len(),
                self.distinct(),
                forall|j: int| 0 <= j < s ==> #[trigger] self.outcomes()[j] != outcome@,
            decreases self.keys.len() - s,
        {
            if same_outcome(&self.keys[s], &outcome) {
                assert(self.outcomes()[s as int] == outcome@);
                return (self, SinkAction::Existing(s));
            }
            s += 1;
        }
        let name = self.file_name(&outcome);
        let ghost before = self.outcomes();
        let BucketRouter { stem, prefix, keys } = self;
        let mut keys = keys;
        keys.push(outcome);
        assert(keys@.map_values(|key: Outcome| key@) =~= before.push(outcome@));
        (BucketRouter { stem, prefix, keys }, SinkAction::Open { sink: s, name })
    }

    /// Decides the one write that a classified record causes: the sink,
    /// found as `route` finds it, and the text, which is the record's line
    /// with a line feed.
    pub fn place(self, sorted: Classified) -> (r: (BucketRouter, Placement))
        ensures
            self.routed(sorted.outcome@, r.0, r.1.action),
            r.1.text@ == terminated(sorted.line@),
    {
        let Classified { outcome, line } = sorted;
        let (router, action) = self.route(outcome);
        (router, Placement { action, text: terminate(line) })
    }
}

/// Every routed record has exactly one sink: the sink it is written to
/// holds its outcome, and no other sink does.
pub proof fn lemma_exactly_one_sink(
    before: BucketRouter,
    outcome: Option<Seq<char>>,
    after: BucketRouter,
    action: SinkAction,
    other: int,
)
    requires
        before.routed(outcome, after, action),
        0 <= other < after.outcomes().len(),
        other != action.sink(),
    ensures
        after.outcomes()[action.sink() as int] == outcome,
        after.outcomes()[other] != outcome,
{
}

} // verus!
