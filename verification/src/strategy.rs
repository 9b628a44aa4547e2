//! The repeat policy attached to every scheduled task.

use vstd::prelude::*;
use vstd::string::*;
use crate::text::{enclose, same_text};

verus! {

/// What happens to a task once its trigger fires.
#[derive(Clone, Copy, PartialEq, Eq, Structural, Debug)]
pub enum RepeatingStrategy {
    /// Fire a single time, then retire.
    Once,
    /// Fire, then rearm for the same time on the following day.
    Daily,
    /// Fire, then rearm indefinitely.
    Forever,
    /// Fire, then rearm for the same day of the following month.
    Monthly,
}

impl RepeatingStrategy {
    /// Whether a task with this policy stays armed after it has fired.
    pub open spec fn repeats(self) -> bool {
        self != RepeatingStrategy::Once
    }

    /// The tag under which the policy appears in configuration files.
    pub open spec fn tag(self) -> Seq<char> {
        match self {
            RepeatingStrategy::Once => "once"@,
            RepeatingStrategy::Daily => "daily"@,
            RepeatingStrategy::Forever => "forever"@,
            RepeatingStrategy::Monthly => "monthly"@,
        }
    }

    /// The configuration tag of this policy.
    pub fn as_str(&self) -> (tag: &'static str)
        ensures
            tag@ == self.tag(),
    {
        match self {
            RepeatingStrategy::Once => "once",
            RepeatingStrategy::Daily => "daily",
            RepeatingStrategy::Forever => "forever",
            RepeatingStrategy::Monthly => "monthly",
        }
    }
}

/// The policy that a configuration tag names, and for any other text the
/// complaint that there is no such option.
pub open spec fn tag_meaning(tag: Seq<char>) -> Result<RepeatingStrategy, Seq<char>> {
    if tag == "monthly"@ {
        Ok(RepeatingStrategy::Monthly)
    } else if tag == "daily"@ {
        Ok(RepeatingStrategy::Daily)
    } else if tag == "forever"@ {
        Ok(RepeatingStrategy::Forever)
    } else if tag == "once"@ {
        Ok(RepeatingStrategy::Once)
    } else {
        Err("Ошибка, опции `"@ + tag + "` не существует"@)
    }
}

/// Reads a policy from its configuration tag: `once`, `daily`, `forever` or
/// `monthly`.
pub fn deserialize_repeating(tag: &str) -> (strategy: Result<RepeatingStrategy, String>)
    ensures
        match strategy {
            Ok(found) => tag_meaning(tag@) == Ok::<RepeatingStrategy, Seq<char>>(found),
            Err(complaint) => tag_meaning(tag@) == Err::<RepeatingStrategy, Seq<char>>(
                complaint@,
            ),
        },
{
    if same_text(tag, "monthly") {
        Ok(RepeatingStrategy::Monthly)
    } else if same_text(tag, "daily") {
        Ok(RepeatingStrategy::Daily)
    } else if same_text(tag, "forever") {
        Ok(RepeatingStrategy::Forever)
    } else if same_text(tag, "once") {
        Ok(RepeatingStrategy::Once)
    } else {
        Err(enclose("Ошибка, опции `", tag, "` не существует"))
    }
}

/// Writes a policy as its configuration tag.
pub fn serialize_repeating(repeat: &RepeatingStrategy) -> (tag: String)
    ensures
        tag@ == repeat.tag(),
{
    String::from_str(repeat.as_str())
}

/// Reading back the tag of a policy gives that policy.
pub proof fn law_tag_reads_back(strategy: RepeatingStrategy)
    ensures
        tag_meaning(strategy.tag()) == Ok::<RepeatingStrategy, Seq<char>>(strategy),
{
    reveal_strlit("monthly");
    reveal_strlit("daily");
    reveal_strlit("forever");
    reveal_strlit("once");
    match strategy {
        RepeatingStrategy::Once => {
            assert("once"@.len() == 4);
            assert("once"@ != "monthly"@);
            assert("once"@ != "daily"@);
            assert("once"@ != "forever"@);
        },
        RepeatingStrategy::Daily => {
            assert("daily"@.len() == 5);
            assert("daily"@ != "monthly"@);
        },
        RepeatingStrategy::Forever => {
            assert("forever"@[0] == 'f');
            assert("monthly"@[0] == 'm');
            assert("forever"@ != "monthly"@);
            assert("forever"@.len() == 7);
            assert("forever"@ != "daily"@);
        },
        RepeatingStrategy::Monthly => {},
    }
}

} // verus!
