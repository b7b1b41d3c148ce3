use vstd::prelude::*;
use vstd::string::StringExecFns;

verus! {

/// Something that can give a short textual summary of itself.
pub trait Summary {
    /// The text that `summarize` produces.
    spec fn summary_text(&self) -> Seq<char>;

    fn summarize(&self) -> (r: String)
        ensures
            r@ == self.summary_text(),
    ;

    /// A generic teaser shared by every implementor unless it overrides it.
    fn read(&self) -> (r: String)
        ensures
            r@ == "default read..."@,
    {
        String::from_str("default read...")
    }
}

/// A news article.
#[derive(Debug)]
pub struct Article {
    pub headline: String,
    pub content: String,
}

impl Summary for Article {
    /// The headline, a colon and two spaces, then the content.
    open spec fn summary_text(&self) -> Seq<char> {
        self.headline@ + ":  "@ + self.content@
    }

    fn summarize(&self) -> (r: String) {
        let mut out = self.headline.clone();
        out.append(":  ");
        out.append(self.content.as_str());
        out
    }
}

/// A book, known by its title.
#[derive(Debug)]
pub struct Book {
    pub title: String,
}

impl Summary for Book {
    /// Books all share one fixed summary.
    open spec fn summary_text(&self) -> Seq<char> {
        "default summarize..."@
    }

    fn summarize(&self) -> (r: String) {
        String::from_str("default summarize...")
    }
}

/// The last value that `Counter::next` hands out.
pub const COUNTER_LIMIT: u32 = 5;

/// Counts from 1 up to `COUNTER_LIMIT`, one step per call of `next`.
#[derive(Debug)]
pub struct Counter {
    pub count: u32,
}

impl Counter {
    /// Steps the counter and returns its new value, or `None` once it has
    /// reached the limit (the counter then stays where it is).
    pub fn next(&mut self) -> (r: Option<u32>)
        ensures
            old(self).count < COUNTER_LIMIT ==> final(self).count == old(self).count + 1
                && r == Some(final(self).count),
            old(self).count >= COUNTER_LIMIT ==> final(self).count == old(self).count
                && r is None,
    {
        if self.count < COUNTER_LIMIT {
            self.count = self.count + 1;
            Some(self.count)
        } else {
            None
        }
    }
}

} // verus!
