//! The mock API: every join allowed to the configured target, or every join
//! refused with the configured reason.
use vstd::prelude::*;
use vstd::string::*;

use crate::config::ApiConfig;
use crate::proxy::routing::{JoinDecision, JoinTarget};
use crate::minecraft::types::{all_ascii_digits, lemma_decimal_value, spec_digits_value};
use crate::text::{lemma_decimal_chars, push_char, push_decimal, spec_decimal};

verus! {

/// The mock API and the number of joins it has allowed.
pub struct MockApiService {
    counter: u64,
    config: ApiConfig,
}

/// The connection id of the `sequence`-th allowed join.
pub open spec fn spec_connection_id(prefix: Seq<char>, sequence: nat) -> Seq<char> {
    prefix + seq!['-'] + spec_decimal(sequence)
}

/// A connection id starts with the configured prefix and a `-`; what follows
/// is the join's sequence number in decimal, and reads back as that number.
pub proof fn lemma_connection_id_parts(prefix: Seq<char>, sequence: nat)
    ensures
        spec_connection_id(prefix, sequence).len() > prefix.len() + 1,
        spec_connection_id(prefix, sequence).take(prefix.len() as int) == prefix,
        spec_connection_id(prefix, sequence)[prefix.len() as int] == '-',
        all_ascii_digits(spec_connection_id(prefix, sequence).skip(prefix.len() + 1int)),
        spec_digits_value(spec_connection_id(prefix, sequence).skip(prefix.len() + 1int)) == sequence,
{
    let id = spec_connection_id(prefix, sequence);
    lemma_decimal_chars(sequence);
    lemma_decimal_value(sequence);
    assert(id.take(prefix.len() as int) =~= prefix);
    assert(id.skip(prefix.len() + 1int) =~= spec_decimal(sequence));
}

impl MockApiService {
    pub closed spec fn spec_counter(&self) -> u64 {
        self.counter
    }

    pub closed spec fn spec_config(&self) -> ApiConfig {
        self.config
    }

    /// A mock API with `counter` joins allowed so far.
    pub fn new(counter: u64, config: ApiConfig) -> (s: Self)
        ensures
            s.spec_counter() == counter,
            s.spec_config() == config,
    {
        MockApiService { counter, config }
    }

    /// Answers a join: refused with the configured kick reason where there
    /// is one; else allowed to the configured target, with the next
    /// connection id in sequence.
    pub fn join(&mut self) -> (decision: JoinDecision)
        requires
            old(self).spec_counter() < u64::MAX,
        ensures
            final(self).spec_config() == old(self).spec_config(),
            match old(self).spec_config().mock_kick_reason {
                Some(reason) => {
                    &&& decision matches JoinDecision::Deny { kick_reason } && kick_reason@ == reason@
                    &&& final(self).spec_counter() == old(self).spec_counter()
                },
                None => {
                    &&& decision matches JoinDecision::Allow(target)
                    &&& target.target_addr@ == old(self).spec_config().mock_target_addr@
                    &&& target.rewrite_addr == old(self).spec_config().mock_rewrite_addr
                    &&& target.connection_id matches Some(id)
                    &&& id@ == spec_connection_id(
                        old(self).spec_config().mock_connection_id_prefix@,
                        (old(self).spec_counter() + 1) as nat,
                    )
                    &&& final(self).spec_counter() == old(self).spec_counter() + 1
                },
            },
    {
        if let Some(reason) = &self.config.mock_kick_reason {
            return JoinDecision::Deny { kick_reason: reason.clone() };
        }
        self.counter = self.counter + 1;
        let mut id = self.config.mock_connection_id_prefix.clone();
        push_char(&mut id, '-');
        push_decimal(&mut id, self.counter);
        JoinDecision::Allow(
            JoinTarget {
                target_addr: self.config.mock_target_addr.clone(),
                rewrite_addr: self.config.mock_rewrite_addr.clone(),
                connection_id: Some(id),
            },
        )
    }

    /// Traffic reports ask the mock to close nothing.
    pub fn traffic_single(&self, _connection_id: &str, _send_bytes: u64, _recv_bytes: u64) -> (close: Vec<String>)
        ensures
            close@.len() == 0,
    {
        Vec::new()
    }
}

} // verus!
