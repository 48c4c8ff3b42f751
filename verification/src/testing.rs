//! An executor that stands in for Docker: it records every command line it
//! is given and answers each with one reply configured in advance, so that
//! command handlers can be exercised without a Docker installation.

use vstd::prelude::*;
use crate::docker::{reply_view, words, DockerExecutor};
use crate::text::texts;

verus! {

/// The command lines that a list of argument lists holds.
pub open spec fn call_texts(calls: Seq<Vec<String>>) -> Seq<Seq<Seq<char>>> {
    calls.map_values(|call: Vec<String>| texts(call@))
}

/// A Docker executor that records all invocations and returns a
/// preconfigured reply.
pub struct MockDockerExecutor {
    captured: Vec<Vec<String>>,
    response: Result<String, String>,
}

impl MockDockerExecutor {
    /// The reply that this mock gives to every command line.
    pub closed spec fn configured_reply(&self) -> Result<Seq<char>, Seq<char>> {
        reply_view(self.response)
    }

    /// The command lines that this mock has been given, oldest first.
    pub closed spec fn recorded(&self) -> Seq<Seq<Seq<char>>> {
        call_texts(self.captured@)
    }

    /// Creates a mock that always returns the given standard output.
    pub fn with_success(output: &str) -> (mock: MockDockerExecutor)
        ensures
            mock.configured_reply() == Ok::<Seq<char>, Seq<char>>(output@),
            mock.recorded() == Seq::<Seq<Seq<char>>>::empty(),
    {
        let mock = MockDockerExecutor { captured: Vec::new(), response: Ok(output.to_owned()) };
        assert(mock.recorded() =~= Seq::<Seq<Seq<char>>>::empty());
        mock
    }

    /// Creates a mock that always returns the given error.
    pub fn with_error(error: &str) -> (mock: MockDockerExecutor)
        ensures
            mock.configured_reply() == Err::<Seq<char>, Seq<char>>(error@),
            mock.recorded() == Seq::<Seq<Seq<char>>>::empty(),
    {
        let mock = MockDockerExecutor { captured: Vec::new(), response: Err(error.to_owned()) };
        assert(mock.recorded() =~= Seq::<Seq<Seq<char>>>::empty());
        mock
    }

    /// Returns all argument lists that were passed to `execute`, oldest
    /// first.
    pub fn captured_args(&self) -> (calls: Vec<Vec<String>>)
        ensures
            call_texts(calls@) == self.recorded(),
    {
        let mut calls: Vec<Vec<String>> = Vec::new();
        for i in 0..self.captured.len()
            invariant
                call_texts(calls@) == call_texts(self.captured@).take(i as int),
        {
            let original = &self.captured[i];
            let mut call: Vec<String> = Vec::new();
            for j in 0..original.len()
                invariant
                    texts(call@) == texts(original@).take(j as int),
            {
                let ghost before = call@;
                call.push(original[j].clone());
                assert(texts(call@) =~= texts(before).push(original@[j as int]@));
                assert(texts(original@).take(j + 1) =~= texts(original@).take(j as int).push(
                    original@[j as int]@,
                ));
            }
            assert(texts(original@).take(original.len() as int) =~= texts(original@));
            let ghost before = calls@;
            calls.push(call);
            assert(call_texts(calls@) =~= call_texts(before).push(texts(original@)));
            assert(call_texts(self.captured@).take(i + 1) =~= call_texts(self.captured@).take(
                i as int,
            ).push(texts(original@)));
        }
        assert(call_texts(self.captured@).take(self.captured.len() as int) =~= call_texts(
            self.captured@,
        ));
        calls
    }
}

impl DockerExecutor for MockDockerExecutor {
    /// The mock always gives its configured reply, keeps it, and records
    /// the command line after those it was given before.
    open spec fn can_step(
        &self,
        args: Seq<Seq<char>>,
        reply: Result<Seq<char>, Seq<char>>,
        after: Self,
    ) -> bool {
        &&& reply == self.configured_reply()
        &&& after.configured_reply() == self.configured_reply()
        &&& after.recorded() == self.recorded().push(args)
    }

    fn execute(&mut self, args: &[&str]) -> (reply: Result<String, String>) {
        let mut call: Vec<String> = Vec::new();
        for i in 0..args.len()
            invariant
                texts(call@) == words(args@).take(i as int),
        {
            let ghost before = call@;
            call.push(args[i].to_owned());
            assert(texts(call@) =~= texts(before).push(args@[i as int]@));
            assert(words(args@).take(i + 1) =~= words(args@).take(i as int).push(args@[i as int]@));
        }
        assert(words(args@).take(args.len() as int) =~= words(args@));
        let ghost before = self.captured@;
        self.captured.push(call);
        assert(call_texts(self.captured@) =~= call_texts(before).push(words(args@)));
        match &self.response {
            Ok(out) => Ok(out.clone()),
            Err(e) => Err(e.clone()),
        }
    }
}

} // verus!
