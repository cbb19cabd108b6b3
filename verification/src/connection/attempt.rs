//! The way to a backend server, with limbo as the place to wait.

use vstd::prelude::*;

verus! {

/// What is being tried.
#[derive(Clone, Copy, Debug, PartialEq, Eq, Structural)]
pub enum Attempt {
    /// Choosing a server.
    Routing,
    /// Reaching it.
    Dialing,
    /// Introducing the player to it.
    Greeting,
    /// Logging the player in.
    LoggingIn,
    /// Holding the player in limbo until a server can be reached.
    Limbo,
    /// Introducing the player to the server that limbo found.
    LimboGreeting,
    /// Logging the player in at that server.
    LimboLoggingIn,
    /// The player is at a server.
    Connected,
    /// No server would have the player.
    Failed,
}

/// What comes after an attempt that went well or did not. What fails on the direct way leads
/// into limbo; what fails after limbo is the end.
pub open spec fn after_attempt(a: Attempt, well: bool) -> Attempt {
    match a {
        Attempt::Routing => if well { Attempt::Dialing } else { Attempt::Limbo },
        Attempt::Dialing => if well { Attempt::Greeting } else { Attempt::Limbo },
        Attempt::Greeting => if well { Attempt::LoggingIn } else { Attempt::Limbo },
        Attempt::LoggingIn => if well { Attempt::Connected } else { Attempt::Limbo },
        Attempt::Limbo => if well { Attempt::LimboGreeting } else { Attempt::Failed },
        Attempt::LimboGreeting => if well { Attempt::LimboLoggingIn } else { Attempt::Failed },
        Attempt::LimboLoggingIn => if well { Attempt::Connected } else { Attempt::Failed },
        Attempt::Connected => Attempt::Connected,
        Attempt::Failed => Attempt::Failed,
    }
}

impl Attempt {
    /// The way of a player who has just logged in.
    pub fn join() -> (a: Self)
        ensures
            a == Attempt::Routing,
    {
        Attempt::Routing
    }

    /// The way of a player who changes servers: through limbo at once.
    pub fn switch() -> (a: Self)
        ensures
            a == Attempt::Limbo,
    {
        Attempt::Limbo
    }

    /// What comes next.
    pub fn next(self, well: bool) -> (a: Self)
        ensures
            a == after_attempt(self, well),
    {
        match self {
            Attempt::Routing => if well { Attempt::Dialing } else { Attempt::Limbo },
            Attempt::Dialing => if well { Attempt::Greeting } else { Attempt::Limbo },
            Attempt::Greeting => if well { Attempt::LoggingIn } else { Attempt::Limbo },
            Attempt::LoggingIn => if well { Attempt::Connected } else { Attempt::Limbo },
            Attempt::Limbo => if well { Attempt::LimboGreeting } else { Attempt::Failed },
            Attempt::LimboGreeting => if well { Attempt::LimboLoggingIn } else { Attempt::Failed },
            Attempt::LimboLoggingIn => if well { Attempt::Connected } else { Attempt::Failed },
            Attempt::Connected => Attempt::Connected,
            Attempt::Failed => Attempt::Failed,
        }
    }

    /// How many attempts may still come before the way ends.
    pub open spec fn left(self) -> nat {
        match self {
            Attempt::Routing => 7,
            Attempt::Dialing => 6,
            Attempt::Greeting => 5,
            Attempt::LoggingIn => 4,
            Attempt::Limbo => 3,
            Attempt::LimboGreeting => 2,
            Attempt::LimboLoggingIn => 1,
            Attempt::Connected | Attempt::Failed => 0,
        }
    }
}

/// Every way ends.
pub proof fn every_way_ends(a: Attempt, well: bool)
    ensures
        a.left() > 0 ==> after_attempt(a, well).left() < a.left(),
        a.left() == 0 <==> (a == Attempt::Connected || a == Attempt::Failed),
{
}

/// The attempts after a row of outcomes.
pub open spec fn after_attempts(a: Attempt, outcomes: Seq<bool>) -> Attempt
    decreases outcomes.len(),
{
    if outcomes.len() == 0 {
        a
    } else {
        after_attempt(after_attempts(a, outcomes.drop_last()), outcomes.last())
    }
}

/// Nobody is turned away without having been in limbo: a failure is always one of the limbo
/// attempts' failures.
pub proof fn limbo_comes_before_failure(outcomes: Seq<bool>)
    requires
        after_attempts(Attempt::Routing, outcomes) == Attempt::Failed,
    ensures
        exists|n: int|
            0 <= n <= outcomes.len() && #[trigger] after_attempts(Attempt::Routing, outcomes.take(n))
                == Attempt::Limbo,
    decreases outcomes.len(),
{
    limbo_or_direct(outcomes);
}

/// Where a way leads from its start: along the direct attempts, or through limbo.
proof fn limbo_or_direct(outcomes: Seq<bool>)
    ensures
        ({
            let a = after_attempts(Attempt::Routing, outcomes);
            a == Attempt::Limbo || a == Attempt::LimboGreeting || a == Attempt::LimboLoggingIn || a
                == Attempt::Failed ==> exists|n: int|
                0 <= n <= outcomes.len() && #[trigger] after_attempts(Attempt::Routing, outcomes.take(n))
                    == Attempt::Limbo
        }),
    decreases outcomes.len(),
{
    let a = after_attempts(Attempt::Routing, outcomes);
    if a == Attempt::Limbo {
        assert(outcomes.take(outcomes.len() as int) =~= outcomes);
    } else if a == Attempt::LimboGreeting || a == Attempt::LimboLoggingIn || a == Attempt::Failed {
        let before = outcomes.drop_last();
        limbo_or_direct(before);
        let n = choose|n: int|
            0 <= n <= before.len() && #[trigger] after_attempts(Attempt::Routing, before.take(n)) == Attempt::Limbo;
        assert(before.take(n) =~= outcomes.take(n));
    }
}

} // verus!
