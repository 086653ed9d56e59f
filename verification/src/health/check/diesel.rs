//! The database health indicator's identity and outcome handling.

use vstd::prelude::*;

use super::Diesel;

verus! {

impl Diesel {
    /// The name this indicator reports under.
    pub closed spec fn spec_name(&self) -> Seq<char> {
        self.name@
    }

    /// The query this indicator executes to verify health.
    pub closed spec fn spec_query(&self) -> Seq<char> {
        self.query@
    }

    /// Creates a database health indicator probing with `select 1`.
    pub fn new(name: String) -> (r: Self)
        ensures
            r.spec_name() == name@,
            r.spec_query() == "select 1"@,
    {
        Self { name, query: "select 1".to_owned() }
    }

    /// Creates a database health indicator with a custom query.
    pub fn new_with_query(name: String, query: String) -> (r: Self)
        ensures
            r.spec_name() == name@,
            r.spec_query() == query@,
    {
        Self { name, query }
    }

    /// The name this indicator reports under.
    pub fn name(&self) -> (r: &str)
        ensures
            r@ == self.spec_name(),
    {
        self.name.as_str()
    }

    /// The query to execute to verify health.
    pub fn query(&self) -> (r: &str)
        ensures
            r@ == self.spec_query(),
    {
        self.query.as_str()
    }

    /// Folds the two stages of the probe into one check result: failing to
    /// obtain a connection is the reason, a failing query execution is the
    /// reason, and a clean execution is healthy. The outer value is the
    /// connection attempt, the inner one the query run on the obtained
    /// connection.
    pub fn interpret(outcome: Result<Result<(), String>, String>) -> (r: Result<(), String>)
        ensures
            match outcome {
                Ok(execution) => match execution {
                    Ok(()) => r is Ok,
                    Err(m) => r == Err::<(), String>(m),
                },
                Err(m) => r == Err::<(), String>(m),
            },
    {
        match outcome {
            Ok(Ok(())) => Ok(()),
            Ok(Err(m)) => Err(m),
            Err(m) => Err(m),
        }
    }
}

impl Clone for Diesel {
    /// Clones the indicator; the copy reports under the same name and runs
    /// the same query.
    fn clone(&self) -> (r: Self)
        ensures
            r.spec_name() == self.spec_name(),
            r.spec_query() == self.spec_query(),
    {
        Self { name: self.name.clone(), query: self.query.clone() }
    }
}

} // verus!
