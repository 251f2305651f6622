//! Media items that can be summarised in one line.
use vstd::prelude::*;

verus! {

/// Something with an author that can be summarised in one line.
pub trait Summary {
    /// Who wrote the item, as `summarize_author` gives it.
    spec fn author_text(&self) -> Seq<char>;

    /// Who wrote the item.
    fn summarize_author(&self) -> (r: String)
        ensures
            r@ == self.author_text(),
    ;

    /// A one-line summary that points to the author.
    fn summarize(&self) -> (r: String)
        ensures
            r@ == "(Read more from "@ + self.author_text() + "...)"@,
    {
        let mut r = String::from_str("(Read more from ");
        let author = self.summarize_author();
        r.append(author.as_str());
        r.append("...)");
        r
    }
}

pub struct NewsArticle {
    pub headline: String,
    pub location: String,
    pub author: String,
    pub content: String,
}

impl NewsArticle {
    /// The headline, the author and the place.
    pub fn headline_summary(&self) -> (r: String)
        ensures
            r@ == self.headline@ + ", by "@ + self.author@ + " ("@ + self.location@ + ")"@,
    {
        let mut r = self.headline.clone();
        r.append(", by ");
        r.append(self.author.as_str());
        r.append(" (");
        r.append(self.location.as_str());
        r.append(")");
        r
    }
}

impl Summary for NewsArticle {
    open spec fn author_text(&self) -> Seq<char> {
        self.author@
    }

    fn summarize_author(&self) -> (r: String) {
        self.author.clone()
    }
}

pub struct Tweet {
    pub username: String,
    pub content: String,
    pub reply: bool,
    pub retweet: bool,
}

impl Tweet {
    /// The user's name and what they wrote.
    pub fn content_summary(&self) -> (r: String)
        ensures
            r@ == self.username@ + ": "@ + self.content@,
    {
        let mut r = self.username.clone();
        r.append(": ");
        r.append(self.content.as_str());
        r
    }
}

impl Summary for Tweet {
    open spec fn author_text(&self) -> Seq<char> {
        "@"@ + self.username@
    }

    fn summarize_author(&self) -> (r: String) {
        let mut r = String::from_str("@");
        r.append(self.username.as_str());
        r
    }
}

/// The line that announces `item`.
pub fn notify<T: Summary>(item: &T) -> (r: String)
    ensures
        r@ == "Breaking news! "@ + "(Read more from "@ + item.author_text() + "...)"@,
{
    let mut r = String::from_str("Breaking news! ");
    let summary = item.summarize();
    r.append(summary.as_str());
    r
}

/// A tweet, seen by its caller only as something that can be summarised.
pub fn returns_summarizable() -> (r: Tweet)
    ensures
        r.username@ == "horse_ebooks"@,
        r.content@ == "of course, as you probably already know, people"@,
        !r.reply,
        !r.retweet,
{
    Tweet {
        username: String::from_str("horse_ebooks"),
        content: String::from_str("of course, as you probably already know, people"),
        reply: false,
        retweet: false,
    }
}

} // verus!
