//! The three gauges that the library publishes, and their rendering.
use vstd::prelude::*;

use crate::info::InviteInfo;
use crate::prom::{
    blocks_text, collect_gauge, encode_text, exact_in_f64, family_block, gauge_block, gauge_desc,
    gauge_value, get_gauge, int_text, new_int_gauge, plain_help, sample_text, set_gauge,
    valid_metric_name, IntGauge,
};

verus! {

/// The three gauge values at one moment.
#[derive(Copy, Clone, Debug, PartialEq, Eq, Structural)]
pub struct Snapshot {
    pub members: i64,
    pub presences: i64,
    pub boosts: i64,
}

impl Snapshot {
    /// The values before any successful fetch.
    pub open spec fn zero() -> Snapshot {
        Snapshot { members: 0, presences: 0, boosts: 0 }
    }

    /// The values that one fetched record carries.
    pub open spec fn of_info(info: InviteInfo) -> Snapshot {
        Snapshot {
            members: info.members_spec(),
            presences: info.presences_spec(),
            boosts: info.boosts_spec(),
        }
    }
}

/// Why the gauges could not be set up or rendered.
#[derive(Copy, Clone, Debug, PartialEq, Eq, Structural)]
pub enum MetricsError {
    /// A gauge could not be created.
    Create,
    /// The gauges could not be encoded as text.
    Encode,
}

pub const MEMBERS_NAME: &'static str = "members";
pub const MEMBERS_HELP: &'static str = "How many total members there are";
pub const PRESENCES_NAME: &'static str = "presences";
pub const PRESENCES_HELP: &'static str = "How many members are online";
pub const BOOSTS_NAME: &'static str = "boosts";
pub const BOOSTS_HELP: &'static str = "How many boosts the server has";

/// The text exposition of three gauge values: the gauges in name order,
/// each with its help, type and sample line.
pub open spec fn exposition_of(s: Snapshot) -> Seq<char> {
    gauge_block(BOOSTS_NAME@, BOOSTS_HELP@, sample_text(s.boosts))
        + gauge_block(MEMBERS_NAME@, MEMBERS_HELP@, sample_text(s.members))
        + gauge_block(PRESENCES_NAME@, PRESENCES_HELP@, sample_text(s.presences))
}

/// The same text with each value in plain decimal, as it is written where
/// every value is held exactly by an `f64`.
pub open spec fn decimal_exposition_of(s: Snapshot) -> Seq<char> {
    gauge_block(BOOSTS_NAME@, BOOSTS_HELP@, int_text(s.boosts as int))
        + gauge_block(MEMBERS_NAME@, MEMBERS_HELP@, int_text(s.members as int))
        + gauge_block(PRESENCES_NAME@, PRESENCES_HELP@, int_text(s.presences as int))
}

/// All three values are held exactly by an `f64`.
pub open spec fn exact_snapshot(s: Snapshot) -> bool {
    exact_in_f64(s.members as int) && exact_in_f64(s.presences as int) && exact_in_f64(s.boosts as int)
}

/// Before any fetch, the text is each gauge's help and type lines with a
/// sample line of `0`.
pub proof fn lemma_zero_text()
    ensures
        exact_snapshot(Snapshot::zero()),
        decimal_exposition_of(Snapshot::zero()) == gauge_block(BOOSTS_NAME@, BOOSTS_HELP@, seq!['0'])
            + gauge_block(MEMBERS_NAME@, MEMBERS_HELP@, seq!['0'])
            + gauge_block(PRESENCES_NAME@, PRESENCES_HELP@, seq!['0']),
{
    assert(int_text(0) =~= seq!['0']);
}

/// The member, presence and boost gauges.
pub struct Gauges {
    members: IntGauge,
    presences: IntGauge,
    boosts: IntGauge,
}

impl View for Gauges {
    type V = Snapshot;

    closed spec fn view(&self) -> Snapshot {
        Snapshot {
            members: gauge_value(self.members),
            presences: gauge_value(self.presences),
            boosts: gauge_value(self.boosts),
        }
    }
}

proof fn lemma_names_and_helps()
    ensures
        valid_metric_name(MEMBERS_NAME@),
        valid_metric_name(PRESENCES_NAME@),
        valid_metric_name(BOOSTS_NAME@),
        MEMBERS_HELP@.len() > 0 && plain_help(MEMBERS_HELP@),
        PRESENCES_HELP@.len() > 0 && plain_help(PRESENCES_HELP@),
        BOOSTS_HELP@.len() > 0 && plain_help(BOOSTS_HELP@),
{
    reveal_strlit("members");
    reveal_strlit("presences");
    reveal_strlit("boosts");
    reveal_strlit("How many total members there are");
    reveal_strlit("How many members are online");
    reveal_strlit("How many boosts the server has");
}

impl Gauges {
    /// Each gauge carries its own name and help string.
    pub closed spec fn wf(&self) -> bool {
        &&& gauge_desc(self.members) == (MEMBERS_NAME@, MEMBERS_HELP@)
        &&& gauge_desc(self.presences) == (PRESENCES_NAME@, PRESENCES_HELP@)
        &&& gauge_desc(self.boosts) == (BOOSTS_NAME@, BOOSTS_HELP@)
    }

    /// Creates the three gauges, all at 0.
    pub fn new() -> (r: Result<Gauges, MetricsError>)
        ensures
            r is Ok,
            r->Ok_0.wf(),
            r->Ok_0@ == Snapshot::zero(),
    {
        proof {
            lemma_names_and_helps();
        }
        let members = match new_int_gauge(MEMBERS_NAME, MEMBERS_HELP) {
            Ok(g) => g,
            Err(_) => return Err(MetricsError::Create),
        };
        let presences = match new_int_gauge(PRESENCES_NAME, PRESENCES_HELP) {
            Ok(g) => g,
            Err(_) => return Err(MetricsError::Create),
        };
        let boosts = match new_int_gauge(BOOSTS_NAME, BOOSTS_HELP) {
            Ok(g) => g,
            Err(_) => return Err(MetricsError::Create),
        };
        Ok(Gauges { members, presences, boosts })
    }

    /// Sets all three gauges from one fetched record.
    pub fn update(&mut self, info: InviteInfo)
        requires
            old(self).wf(),
        ensures
            final(self).wf(),
            final(self)@ == Snapshot::of_info(info),
    {
        set_gauge(&mut self.members, info.approximate_member_count());
        set_gauge(&mut self.presences, info.approximate_presence_count());
        set_gauge(&mut self.boosts, info.guild().premium_subscription_count());
    }

    /// The three values as they stand.
    pub fn snapshot(&self) -> (r: Snapshot)
        ensures
            r == self@,
    {
        Snapshot {
            members: get_gauge(&self.members),
            presences: get_gauge(&self.presences),
            boosts: get_gauge(&self.boosts),
        }
    }

    /// The three gauges in the text exposition format of pull-based metrics.
    pub fn render(&self) -> (r: Result<String, MetricsError>)
        requires
            self.wf(),
        ensures
            r is Ok,
            r->Ok_0@ == exposition_of(self@),
            exact_snapshot(self@) ==> r->Ok_0@ == decimal_exposition_of(self@),
    {
        proof {
            lemma_names_and_helps();
        }
        let mut families = collect_gauge(&self.boosts);
        let mut more = collect_gauge(&self.members);
        families.append(&mut more);
        let mut rest = collect_gauge(&self.presences);
        families.append(&mut rest);
        proof {
            let fs = families@;
            let f1 = fs.drop_last();
            let f0 = f1.drop_last();
            assert(fs.last() == fs[2] && f1.last() == fs[1] && f0.last() == fs[0]);
            assert(f0.drop_last().len() == 0);
            assert(blocks_text(f0.drop_last()) =~= Seq::<char>::empty());
            assert(blocks_text(f0) =~= family_block(fs[0])->Some_0);
            assert(blocks_text(f1) == blocks_text(f0) + family_block(fs[1])->Some_0);
            assert(blocks_text(fs) == blocks_text(f1) + family_block(fs[2])->Some_0);
            assert(blocks_text(fs) =~= family_block(fs[0])->Some_0 + family_block(fs[1])->Some_0
                + family_block(fs[2])->Some_0);
        }
        match encode_text(&families) {
            Ok(s) => Ok(s),
            Err(_) => Err(MetricsError::Encode),
        }
    }
}

} // verus!
