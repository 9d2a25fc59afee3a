use vstd::prelude::*;
use crate::text::{replace_all, replace_text};

verus! {

/// The values that stand for the placeholders `{user}`, `{bot}`, `{time}`
/// and `{time_since}` in prompt text.
pub struct TemplateVariables<'a> {
    user: &'a str,
    bot: &'a str,
    time: &'a str,
    time_since: &'a str,
}

/// `s` with each placeholder replaced, in the order user, bot, time, time
/// since.
pub open spec fn substituted(
    s: Seq<char>,
    user: Seq<char>,
    bot: Seq<char>,
    time: Seq<char>,
    time_since: Seq<char>,
) -> Seq<char> {
    replace_all(
        replace_all(
            replace_all(replace_all(s, "{user}"@, user), "{bot}"@, bot),
            "{time}"@,
            time,
        ),
        "{time_since}"@,
        time_since,
    )
}

impl<'a> TemplateVariables<'a> {
    pub closed spec fn user(&self) -> Seq<char> {
        self.user@
    }

    pub closed spec fn bot(&self) -> Seq<char> {
        self.bot@
    }

    pub closed spec fn time(&self) -> Seq<char> {
        self.time@
    }

    pub closed spec fn time_since(&self) -> Seq<char> {
        self.time_since@
    }

    /// `s` with this set's values put in for the placeholders.
    pub open spec fn apply(&self, s: Seq<char>) -> Seq<char> {
        substituted(s, self.user(), self.bot(), self.time(), self.time_since())
    }

    pub fn new(user: &'a str, bot: &'a str, time: &'a str, time_since: &'a str) -> (r: Self)
        ensures
            r.user() == user@,
            r.bot() == bot@,
            r.time() == time@,
            r.time_since() == time_since@,
    {
        TemplateVariables { user, bot, time, time_since }
    }

    /// Substitutes the placeholders in one string.
    pub fn substitute_template(&self, s: &str) -> (r: String)
        ensures
            r@ == self.apply(s@),
    {
        proof {
            reveal_strlit("{user}");
            reveal_strlit("{bot}");
            reveal_strlit("{time}");
            reveal_strlit("{time_since}");
        }
        let a = replace_text(s, "{user}", self.user);
        let b = replace_text(a.as_str(), "{bot}", self.bot);
        let c = replace_text(b.as_str(), "{time}", self.time);
        replace_text(c.as_str(), "{time_since}", self.time_since)
    }

    /// Substitutes the placeholders in a string, if there is one.
    pub fn substitute_optional_template(&self, s: Option<&str>) -> (r: Option<String>)
        ensures
            match s {
                Some(t) => r matches Some(u) && u@ == self.apply(t@),
                None => r is None,
            },
    {
        match s {
            Some(t) => Some(self.substitute_template(t)),
            None => None,
        }
    }

    /// Substitutes the placeholders in each string, keeping their order.
    pub fn substitute_templates(&self, vec: &[String]) -> (r: Vec<String>)
        ensures
            r@.len() == vec@.len(),
            forall|i: int| 0 <= i < vec@.len() ==> (#[trigger] r@[i])@ == self.apply(vec@[i]@),
    {
        let mut r: Vec<String> = Vec::new();
        let mut i: usize = 0;
        while i < vec.len()
            invariant
                i <= vec@.len(),
                r@.len() == i,
                forall|j: int| 0 <= j < i ==> (#[trigger] r@[j])@ == self.apply(vec@[j]@),
            decreases vec@.len() - i,
        {
            r.push(self.substitute_template(vec[i].as_str()));
            i = i + 1;
        }
        r
    }

    /// Substitutes the placeholders in each string of a list, if there is one.
    pub fn substitute_optional_templates(&self, vec: Option<&[String]>) -> (r: Option<Vec<String>>)
        ensures
            match vec {
                Some(v) => r matches Some(u) && u@.len() == v@.len() && forall|i: int|
                    0 <= i < v@.len() ==> (#[trigger] u@[i])@ == self.apply(v@[i]@),
                None => r is None,
            },
    {
        match vec {
            Some(v) => Some(self.substitute_templates(v)),
            None => None,
        }
    }
}

} // verus!
