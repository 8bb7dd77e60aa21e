//! Agent adapters: the result record every adapter produces, and the
//! registry of known agent types.

pub mod claude;

use vstd::prelude::*;

verus! {

/// Result from an agent execution.
#[derive(Debug, Clone)]
pub struct AgentResult {
    /// Whether the agent completed successfully.
    pub success: bool,
    /// Agent's output/response.
    pub output: String,
    /// Number of iterations/attempts.
    pub iterations: u32,
    /// Token usage (if available).
    pub tokens_used: Option<u64>,
}

/// Available agent types.
#[derive(Debug, Clone, Copy, PartialEq, Eq, Structural)]
pub enum AgentType {
    Claude,
}

/// The registered agent name, compared without regard to ASCII case.
pub open spec fn is_known_agent_name(s: Seq<char>) -> bool {
    &&& s.len() == 5
    &&& (s[0] == 'c' || s[0] == 'C')
    &&& (s[1] == 'o' || s[1] == 'O')
    &&& (s[2] == 'd' || s[2] == 'D')
    &&& (s[3] == 'e' || s[3] == 'E')
    &&& (s[4] == 'r' || s[4] == 'R')
}

impl AgentType {
    /// Parse an agent name, ignoring ASCII case; unknown names are
    /// rejected with a message naming them.
    pub fn from_name(s: &str) -> (r: Result<AgentType, String>)
        ensures
            r is Ok <==> is_known_agent_name(s@),
            r matches Ok(t) ==> t == AgentType::Claude,
            r matches Err(m) ==> m@ == "Unknown agent type: "@ + s@,
    {
        let n: usize = s.unicode_len();
        if n == 5 {
            let c0 = s.get_char(0);
            let c1 = s.get_char(1);
            let c2 = s.get_char(2);
            let c3 = s.get_char(3);
            let c4 = s.get_char(4);
            if (c0 == 'c' || c0 == 'C') && (c1 == 'o' || c1 == 'O') && (c2 == 'd' || c2 == 'D')
                && (c3 == 'e' || c3 == 'E') && (c4 == 'r' || c4 == 'R') {
                return Ok(AgentType::Claude);
            }
        }
        let mut m = "Unknown agent type: ".to_owned();
        m.append(s);
        Err(m)
    }

    /// The agent type's display name.
    pub fn as_str(&self) -> (r: &'static str)
        ensures
            r@ == "coder"@,
    {
        match self {
            AgentType::Claude => "coder",
        }
    }
}

} // verus!
