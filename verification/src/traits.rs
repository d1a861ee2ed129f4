//! Shared behaviour: traits, their default methods, and types that implement
//! them.

use vstd::prelude::*;
use std::ops::Add;
use vstd::std_specs::ops::AddSpecImpl;

verus! {

/// The default summary: an invitation to read more from the author.
pub open spec fn read_more(author: Seq<char>) -> Seq<char> {
    "(Read more from "@ + author + "...)"@
}

/// The line that announces a summary.
pub open spec fn breaking_news(summary: Seq<char>) -> Seq<char> {
    "Breaking news! "@ + summary
}

/// Something that can be summed up in a line.
pub trait Summary {
    /// Names the author.
    fn summarize_author(&self) -> (author: String);

    /// Sums the item up. Unless a type says otherwise, the summary invites
    /// the reader to read more from the author, as `summarize_author` names
    /// them.
    fn summarize(&self) -> (summary: String)
        default_ensures
            exists|author: String|
                (#[trigger] call_ensures(Self::summarize_author, (self,), author) && summary@
                    == read_more(author@)),
    {
        let author = self.summarize_author();
        let mut summary = String::from_str("(Read more from ");
        summary.append(author.as_str());
        summary.append("...)");
        summary
    }
}

/// A news article.
pub struct NewsArticle {
    pub headline: String,
    pub location: String,
    pub author: String,
    pub content: String,
}

/// The summary of an article: headline, author and place.
pub open spec fn article_summary(
    headline: Seq<char>,
    author: Seq<char>,
    location: Seq<char>,
) -> Seq<char> {
    headline + ", by "@ + author + " ("@ + location + ")"@
}

impl Summary for NewsArticle {
    fn summarize_author(&self) -> (author: String)
        ensures
            author@ == self.author@,
    {
        self.author.clone()
    }

    fn summarize(&self) -> (summary: String)
        ensures
            summary@ == article_summary(self.headline@, self.author@, self.location@),
    {
        let mut summary = self.headline.clone();
        summary.append(", by ");
        summary.append(self.author.as_str());
        summary.append(" (");
        summary.append(self.location.as_str());
        summary.append(")");
        summary
    }
}

/// A short public message.
pub struct Tweet {
    pub username: String,
    pub content: String,
    pub reply: bool,
    pub retweet: bool,
}

impl Summary for Tweet {
    fn summarize_author(&self) -> (author: String)
        ensures
            author@ == "@"@ + self.username@,
    {
        let mut author = String::from_str("@");
        author.append(self.username.as_str());
        author
    }
}

/// A tweet keeps the default summary, so its summary invites the reader to
/// read more from `@` and the user's name.
pub fn tweet_summary(tweet: &Tweet) -> (summary: String)
    ensures
        summary@ == read_more("@"@ + tweet.username@),
{
    tweet.summarize()
}

/// The line that announces an item: `Breaking news!` and its summary.
pub fn notify<T: Summary>(item: &T) -> (line: String)
    ensures
        exists|summary: String|
            call_ensures(T::summarize, (item,), summary) && line@ == breaking_news(summary@),
{
    let summary = item.summarize();
    let mut line = String::from_str("Breaking news! ");
    line.append(summary.as_str());
    line
}

/// The same as [`notify`], with the bound written out.
pub fn notify_bound<T: Summary>(item: &T) -> (line: String)
    ensures
        exists|summary: String|
            call_ensures(T::summarize, (item,), summary) && line@ == breaking_news(summary@),
{
    notify(item)
}

/// A function with two differently bound parameters; it ignores both.
pub fn some_function<T, U>(t: &T, u: &U) -> (r: i32) where T: Clone, U: Clone + Summary
    ensures
        r == 0,
{
    0
}

/// A tweet, handed out as something that can be summed up.
pub fn returns_summarizable() -> (item: Tweet)
    ensures
        item.username@ == "horse_ebooks"@,
        item.content@ == "of course, as you probably already know, people"@,
        !item.reply,
        !item.retweet,
{
    Tweet {
        username: String::from_str("horse_ebooks"),
        content: String::from_str("of course, as you probably already know, people"),
        reply: false,
        retweet: false,
    }
}

/// Something that hands out items one at a time until it has no more.
pub trait IteratorLike {
    type Item;

    /// The next item, or `None` at the end.
    fn next(&mut self) -> (item: Option<Self::Item>);
}

/// A counter that hands out the numbers up to five.
pub struct Counter {
    pub count: u32,
}

impl IteratorLike for Counter {
    type Item = u32;

    /// Counts one up, and hands the count out while it is below six. A count
    /// that has reached the largest number stays there.
    fn next(&mut self) -> (item: Option<u32>)
        ensures
            old(self).count < u32::MAX ==> final(self).count == old(self).count + 1,
            old(self).count == u32::MAX ==> final(self).count == u32::MAX,
            item == if final(self).count < 6 {
                Some(final(self).count)
            } else {
                None
            },
    {
        if self.count < u32::MAX {
            self.count += 1;
        }
        if self.count < 6 {
            Some(self.count)
        } else {
            None
        }
    }
}

/// A point in the plane with whole-numbered coordinates.
#[derive(Debug, PartialEq, Eq, Structural)]
pub struct Point {
    pub x: i32,
    pub y: i32,
}

impl Add for Point {
    type Output = Point;

    fn add(self, other: Point) -> (sum: Point) {
        Point { x: self.x + other.x, y: self.y + other.y }
    }
}

impl AddSpecImpl for Point {
    open spec fn obeys_add_spec() -> bool {
        true
    }

    open spec fn add_req(self, other: Point) -> bool {
        &&& i32::MIN <= self.x + other.x <= i32::MAX
        &&& i32::MIN <= self.y + other.y <= i32::MAX
    }

    open spec fn add_spec(self, other: Point) -> Point {
        Point { x: (self.x + other.x) as i32, y: (self.y + other.y) as i32 }
    }
}

/// The line of an animal that makes a sound of no particular kind.
pub open spec fn plain_sound(name: Seq<char>) -> Seq<char> {
    name + " 发出声音"@
}

/// The line of a pet that greets its owner.
pub open spec fn greeting_to(name: Seq<char>, owner: Seq<char>) -> Seq<char> {
    name + " 向 "@ + owner + " 打招呼"@
}

/// An animal with a name.
pub trait Animal {
    /// The animal's name.
    fn name(&self) -> (name: &str);

    /// The line that the animal speaks. Unless a type says otherwise, it
    /// makes a sound of no particular kind.
    fn talk(&self) -> (line: String)
        default_ensures
            exists|name: &str|
                (#[trigger] call_ensures(Self::name, (self,), name) && line@ == plain_sound(
                    name@,
                )),
    {
        let mut line = String::from_str(self.name());
        line.append(" 发出声音");
        line
    }
}

/// An animal that has an owner.
pub trait Pet: Animal {
    /// The owner's name.
    fn owner(&self) -> (owner: &str);

    /// The line with which the pet greets its owner.
    fn greet(&self) -> (line: String)
        default_ensures
            exists|name: &str, owner: &str|
                (#[trigger] call_ensures(Self::name, (self,), name) && #[trigger] call_ensures(
                    Self::owner,
                    (self,),
                    owner,
                ) && line@ == greeting_to(name@, owner@)),
    {
        let mut line = String::from_str(self.name());
        line.append(" 向 ");
        line.append(self.owner());
        line.append(" 打招呼");
        line
    }
}

/// A dog and the person it belongs to.
pub struct Dog {
    pub name: String,
    pub owner: String,
}

impl Animal for Dog {
    fn name(&self) -> (name: &str)
        ensures
            name@ == self.name@,
    {
        self.name.as_str()
    }

    fn talk(&self) -> (line: String)
        ensures
            line@ == self.name@ + " 汪汪叫"@,
    {
        let mut line = self.name.clone();
        line.append(" 汪汪叫");
        line
    }
}

impl Pet for Dog {
    fn owner(&self) -> (owner: &str)
        ensures
            owner@ == self.owner@,
    {
        self.owner.as_str()
    }
}

/// A blog post.
pub struct BlogPost {
    pub title: String,
    pub author: String,
    pub content: String,
}

impl Summary for BlogPost {
    fn summarize_author(&self) -> (author: String)
        ensures
            author@ == self.author@,
    {
        self.author.clone()
    }

    fn summarize(&self) -> (summary: String)
        ensures
            summary@ == "博客: "@ + self.title@ + " by "@ + self.author@,
    {
        let mut summary = String::from_str("博客: ");
        summary.append(self.title.as_str());
        summary.append(" by ");
        summary.append(self.author.as_str());
        summary
    }
}

/// The items of a list between square brackets, with a comma and a space
/// between neighbours.
pub open spec fn bracketed(items: Seq<String>) -> Seq<char> {
    "["@ + joined(items) + "]"@
}

/// The items of a list with a comma and a space between neighbours.
pub open spec fn joined(items: Seq<String>) -> Seq<char>
    decreases items.len(),
{
    if items.len() == 0 {
        Seq::<char>::empty()
    } else if items.len() == 1 {
        items[0]@
    } else {
        joined(items.drop_last()) + ", "@ + items.last()@
    }
}

/// A list of texts under a name of its own.
pub struct Wrapper(pub Vec<String>);

impl Wrapper {
    /// The list as one text: `[first, second, ...]`.
    pub fn text(&self) -> (r: String)
        ensures
            r@ == bracketed(self.0@),
    {
        let mut r = String::from_str("[");
        let mut i: usize = 0;
        while i < self.0.len()
            invariant
                0 <= i <= self.0@.len(),
                r@ == "["@ + joined(self.0@.take(i as int)),
            decreases self.0@.len() - i,
        {
            proof {
                assert(self.0@.take(i + 1).drop_last() =~= self.0@.take(i as int));
                assert(self.0@.take(i + 1).last() == self.0@[i as int]);
            }
            if i > 0 {
                r.append(", ");
            }
            r.append(self.0[i].as_str());
            proof {
                let before = joined(self.0@.take(i as int));
                let item = self.0@[i as int]@;
                if i > 0 {
                    assert(("["@ + before + ", "@) + item =~= "["@ + (before + ", "@ + item));
                } else {
                    assert(before =~= Seq::<char>::empty());
                    assert(("["@ + before) + item =~= "["@ + item);
                }
            }
            i += 1;
        }
        assert(self.0@.take(i as int) =~= self.0@);
        r.append("]");
        r
    }
}

/// Something that can be drawn.
pub trait Drawable {
    /// Draws the item.
    fn draw(&self);
}

} // verus!
