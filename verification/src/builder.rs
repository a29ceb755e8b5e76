use vstd::prelude::*;

use core::time::Duration;

verus! {

/// What `Duration::from_secs` answers for a number of whole seconds.
pub uninterp spec fn duration_from_secs(secs: u64) -> Duration;

/// Calls `core::time::Duration::from_secs`; the contract names its result.
#[verifier::external_body]
pub(crate) fn secs(s: u64) -> (d: Duration)
    ensures
        d == duration_from_secs(s),
{
    Duration::from_secs(s)
}

/// `Duration` is `Copy`: its `clone` is a copy of the value.
pub assume_specification[ <Duration as Clone>::clone ](d: &Duration) -> (r: Duration)
    ensures
        r == *d,
;

/// The settings that a set of actors is started with.
#[derive(Clone, Copy)]
pub struct Config {
    pub num: usize,
    pub restart_on_err: bool,
    pub handle_delayed_on_shutdown: bool,
    pub allow_broadcast: bool,
    pub allow_subscribe: bool,
    pub timeout: Duration,
}

/// The settings of a builder that nobody changed: one actor, no restart, no
/// delayed messages on shutdown, no broadcast, no subscribers, ten seconds
/// to queue a message.
pub open spec fn default_config() -> Config {
    Config {
        num: 1,
        restart_on_err: false,
        handle_delayed_on_shutdown: false,
        allow_broadcast: false,
        allow_subscribe: false,
        timeout: duration_from_secs(10),
    }
}

impl Default for Config {
    fn default() -> (c: Self)
        ensures
            c == default_config(),
    {
        Config {
            num: 1,
            restart_on_err: false,
            handle_delayed_on_shutdown: false,
            allow_broadcast: false,
            allow_subscribe: false,
            timeout: secs(10),
        }
    }
}

/// A builder of a set of actors: the function that makes one actor instance,
/// and the settings.
pub struct Builder<B> {
    pub actor_builder: B,
    pub config: Config,
}

/// How one actor instance of a set is started: its context id, the arbiter
/// it runs on (0 where no arbiters are given), and the capacity of its
/// broadcast channel where it has one.
#[derive(Clone, Copy, PartialEq, Eq, Structural, Debug)]
pub struct SpawnPlan {
    pub id: usize,
    pub arbiter: usize,
    pub broadcast: Option<usize>,
}

/// The plan of `Builder::start`: instance `i` gets context id `i`, and a
/// broadcast channel of capacity `num` exactly when broadcasting is allowed.
pub open spec fn start_plan_spec(config: Config) -> Seq<SpawnPlan> {
    Seq::new(
        config.num as nat,
        |i: int|
            SpawnPlan {
                id: i as usize,
                arbiter: 0,
                broadcast: if config.allow_broadcast {
                    Some(config.num)
                } else {
                    None
                },
            },
    )
}

/// The plan of `Builder::start_with_arbiters` over `arbiters` arbiters: a single
/// instance runs on the arbiter at `index` (0 when none is given); with several,
/// instance `i` runs on arbiter `i % arbiters`. Every instance gets a broadcast
/// channel of capacity `num` when broadcasting is allowed, as with `start`.
pub open spec fn arbiter_plan_spec(config: Config, arbiters: usize, index: Option<usize>) -> Seq<
    SpawnPlan,
> {
    if config.num == 1 {
        seq![
            SpawnPlan {
                id: 0,
                arbiter: match index {
                    Some(i) => i,
                    None => 0,
                },
                broadcast: if config.allow_broadcast {
                    Some(config.num)
                } else {
                    None
                },
            },
        ]
    } else {
        Seq::new(
            config.num as nat,
            |i: int|
                SpawnPlan {
                    id: i as usize,
                    arbiter: (i % (arbiters as int)) as usize,
                    broadcast: if config.allow_broadcast {
                        Some(config.num)
                    } else {
                        None
                    },
                },
        )
    }
}

impl<B> Builder<B> {
    /// A builder with the default settings around the function that makes an actor.
    pub fn new(actor_builder: B) -> (b: Self)
        ensures
            b.actor_builder == actor_builder,
            b.config == default_config(),
    {
        Builder { actor_builder, config: Config::default() }
    }

    /// Build multiple actors with the num passed. Default is 1.
    pub fn num(self, num: usize) -> (b: Self)
        requires
            num > 0,
        ensures
            b.actor_builder == self.actor_builder,
            b.config == (Config { num, ..self.config }),
    {
        Self::check_num(num, 0);
        let mut this = self;
        this.config.num = num;
        this
    }

    /// Handle all delayed messages before the actors shut down.
    pub fn handle_delayed_on_shutdown(self) -> (b: Self)
        ensures
            b.actor_builder == self.actor_builder,
            b.config == (Config { handle_delayed_on_shutdown: true, ..self.config }),
    {
        let mut this = self;
        this.config.handle_delayed_on_shutdown = true;
        this
    }

    /// Restart an actor that exits on error.
    pub fn restart_on_err(self) -> (b: Self)
        ensures
            b.actor_builder == self.actor_builder,
            b.config == (Config { restart_on_err: true, ..self.config }),
    {
        let mut this = self;
        this.config.restart_on_err = true;
        this
    }

    /// Set the timeout of sending a message.
    pub fn timeout(self, duration: Duration) -> (b: Self)
        ensures
            b.actor_builder == self.actor_builder,
            b.config == (Config { timeout: duration, ..self.config }),
    {
        let mut this = self;
        this.config.timeout = duration;
        this
    }

    /// Allow broadcasting a message to all actor instances of one address.
    pub fn allow_broadcast(self) -> (b: Self)
        ensures
            b.actor_builder == self.actor_builder,
            b.config == (Config { allow_broadcast: true, ..self.config }),
    {
        let mut this = self;
        this.config.allow_broadcast = true;
        this
    }

    /// Allow actors of other addresses to subscribe to this one.
    pub fn allow_subscribe(self) -> (b: Self)
        ensures
            b.actor_builder == self.actor_builder,
            b.config == (Config { allow_subscribe: true, ..self.config }),
    {
        let mut this = self;
        this.config.allow_subscribe = true;
        this
    }

    /// The number of actors must be larger than `target`.
    fn check_num(num: usize, target: usize)
        requires
            num > target,
    {
    }

    /// How `start` spawns the actor instances.
    pub fn start_plan(&self) -> (plan: Vec<SpawnPlan>)
        ensures
            plan@ == start_plan_spec(self.config),
    {
        let num = self.config.num;
        let broadcast = if self.config.allow_broadcast {
            Some(num)
        } else {
            None
        };
        let mut plan: Vec<SpawnPlan> = Vec::new();
        let mut i: usize = 0;
        while i < num
            invariant
                i <= num,
                num == self.config.num,
                broadcast == (if self.config.allow_broadcast {
                    Some(num)
                } else {
                    None
                }),
                plan@ =~= start_plan_spec(self.config).take(i as int),
            decreases num - i,
        {
            plan.push(SpawnPlan { id: i, arbiter: 0, broadcast });
            i = i + 1;
        }
        plan
    }

    /// How `start_with_arbiters` spawns the actor instances over `arbiters`
    /// arbiters, starting a single instance on the one at `index`.
    pub fn arbiter_plan(&self, arbiters: usize, index: Option<usize>) -> (plan: Vec<SpawnPlan>)
        requires
            self.config.num == 1 ==> match index {
                Some(i) => i < arbiters,
                None => 0 < arbiters,
            },
            self.config.num > 1 ==> arbiters > 0,
        ensures
            plan@ == arbiter_plan_spec(self.config, arbiters, index),
            forall|i: int| 0 <= i < plan@.len() ==> plan@[i].arbiter < arbiters,
    {
        let num = self.config.num;
        let mut plan: Vec<SpawnPlan> = Vec::new();
        let broadcast = if self.config.allow_broadcast {
            Some(num)
        } else {
            None
        };
        if num == 1 {
            let arbiter = match index {
                Some(i) => i,
                None => 0,
            };
            plan.push(SpawnPlan { id: 0, arbiter, broadcast });
            return plan;
        }
        let mut i: usize = 0;
        while i < num
            invariant
                i <= num,
                num == self.config.num,
                num != 1,
                num > 1 ==> arbiters > 0,
                broadcast == (if self.config.allow_broadcast {
                    Some(num)
                } else {
                    None
                }),
                plan@ =~= arbiter_plan_spec(self.config, arbiters, index).take(i as int),
                forall|k: int| 0 <= k < plan@.len() ==> plan@[k].arbiter < arbiters,
            decreases num - i,
        {
            plan.push(SpawnPlan { id: i, arbiter: i % arbiters, broadcast });
            i = i + 1;
        }
        plan
    }
}

/// The number of instances in `plan` that run on arbiter `a`.
pub open spec fn count_on_arbiter(plan: Seq<SpawnPlan>, a: usize) -> nat
    decreases plan.len(),
{
    if plan.len() == 0 {
        0
    } else {
        count_on_arbiter(plan.drop_last(), a) + if plan.last().arbiter == a {
            1nat
        } else {
            0nat
        }
    }
}

/// How a count of `n` items steps through whole rounds of `d`.
proof fn lemma_div_mod_step(n: int, d: int)
    requires
        d > 0,
        n >= 0,
    ensures
        n % d == d - 1 ==> (n + 1) % d == 0 && (n + 1) / d == n / d + 1,
        n % d != d - 1 ==> (n + 1) % d == n % d + 1 && (n + 1) / d == n / d,
{
    vstd::arithmetic::div_mod::lemma_fundamental_div_mod(n, d);
    let q = n / d;
    let r = n % d;
    assert(d * q == q * d) by (nonlinear_arith);
    if r == d - 1 {
        assert(n + 1 == (q + 1) * d + 0) by (nonlinear_arith)
            requires
                n == d * q + r,
                r == d - 1,
        ;
        vstd::arithmetic::div_mod::lemma_fundamental_div_mod_converse(n + 1, d, q + 1, 0);
    } else {
        assert(n + 1 == q * d + (r + 1)) by (nonlinear_arith)
            requires
                n == d * q + r,
        ;
        vstd::arithmetic::div_mod::lemma_fundamental_div_mod_converse(n + 1, d, q, r + 1);
    }
}

/// Among the first `n` instances of a plan over several arbiters, arbiter `a`
/// runs `n / arbiters` of them, and one more when `a < n % arbiters`.
proof fn lemma_count_prefix(config: Config, arbiters: usize, index: Option<usize>, a: usize, n: int)
    requires
        config.num > 1,
        arbiters > 0,
        a < arbiters,
        0 <= n <= config.num,
    ensures
        count_on_arbiter(arbiter_plan_spec(config, arbiters, index).take(n), a) == n / (
        arbiters as int) + if a < n % (arbiters as int) {
            1int
        } else {
            0int
        },
    decreases n,
{
    let plan = arbiter_plan_spec(config, arbiters, index);
    let d = arbiters as int;
    if n == 0 {
        assert(plan.take(0).len() == 0);
    } else {
        let m = n - 1;
        lemma_count_prefix(config, arbiters, index, a, m);
        assert(plan.take(n).drop_last() =~= plan.take(m));
        assert(plan.take(n).last() == plan[m]);
        assert(plan[m].arbiter == (m % d) as usize);
        lemma_div_mod_step(m, d);
    }
}

/// Actors started on arbiters are spread evenly over them: arbiter `a` runs
/// `num / arbiters` instances, and one more when `a < num % arbiters`.
pub proof fn law_arbiters_share_evenly(
    config: Config,
    arbiters: usize,
    index: Option<usize>,
    a: usize,
)
    requires
        config.num > 1,
        arbiters > 0,
        a < arbiters,
    ensures
        count_on_arbiter(arbiter_plan_spec(config, arbiters, index), a) == config.num / arbiters
            + if a < config.num % arbiters {
            1nat
        } else {
            0nat
        },
{
    let plan = arbiter_plan_spec(config, arbiters, index);
    lemma_count_prefix(config, arbiters, index, a, config.num as int);
    assert(plan.take(config.num as int) =~= plan);
}

/// Any two arbiters run numbers of instances that differ by at most one.
pub proof fn law_arbiter_counts_differ_by_at_most_one(
    config: Config,
    arbiters: usize,
    index: Option<usize>,
    a: usize,
    b: usize,
)
    requires
        config.num > 1,
        arbiters > 0,
        a < arbiters,
        b < arbiters,
    ensures
        count_on_arbiter(arbiter_plan_spec(config, arbiters, index), a) <= count_on_arbiter(
            arbiter_plan_spec(config, arbiters, index),
            b,
        ) + 1,
{
    law_arbiters_share_evenly(config, arbiters, index, a);
    law_arbiters_share_evenly(config, arbiters, index, b);
}


/// A start spawns `num` instances; instance `i` gets context id `i`, so the ids
/// are distinct and cover `0..num`; and every instance, a single one
/// included, gets a broadcast channel of capacity `num` exactly when
/// broadcasting is allowed.
pub proof fn law_start_plan_ids_and_broadcast(config: Config)
    ensures
        start_plan_spec(config).len() == config.num,
        forall|i: int|
            0 <= i < config.num ==> {
                &&& (#[trigger] start_plan_spec(config)[i]).id == i
                &&& config.allow_broadcast ==> start_plan_spec(config)[i].broadcast == Some(
                    config.num,
                )
                &&& !config.allow_broadcast ==> start_plan_spec(config)[i].broadcast is None
            },
{
}

/// A start over arbiters spawns `num` instances (one when `num` is 1);
/// instance `i` gets context id `i`, so the ids are distinct and cover
/// `0..num`; and every instance, a single one included, gets a broadcast
/// channel of capacity `num` exactly when broadcasting is allowed.
pub proof fn law_arbiter_plan_ids_and_broadcast(config: Config, arbiters: usize, index: Option<usize>)
    requires
        config.num >= 1,
    ensures
        arbiter_plan_spec(config, arbiters, index).len() == config.num,
        forall|i: int|
            0 <= i < config.num ==> {
                &&& (#[trigger] arbiter_plan_spec(config, arbiters, index)[i]).id == i
                &&& config.allow_broadcast ==> arbiter_plan_spec(config, arbiters, index)[i].broadcast
                    == Some(config.num)
                &&& !config.allow_broadcast ==> arbiter_plan_spec(
                    config,
                    arbiters,
                    index,
                )[i].broadcast is None
            },
{
}

} // verus!
