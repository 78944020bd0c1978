use crate::error::Error;
use crate::timestamp::Timestamp;
use vstd::prelude::*;

verus! {

/// One syndication channel, with every mandatory field present.
#[derive(Debug)]
pub struct Feed {
    pub id: String,
    pub title: String,
    pub home_url: String,
    pub feed_url: String,
    pub author: String,
    pub email: String,
    /// When absent, the time of emission stands in.
    pub date_updated: Option<Timestamp>,
}

impl Feed {
    pub open spec fn wf(self) -> bool {
        self.date_updated is Some ==> self.date_updated->Some_0.wf()
    }
}

/// Collects the fields of a [`Feed`]; `build` checks that the mandatory
/// ones were set.
#[derive(Debug)]
pub struct FeedBuilder {
    pub id: Option<String>,
    pub title: Option<String>,
    pub home_url: Option<String>,
    pub feed_url: Option<String>,
    pub author: Option<String>,
    pub email: Option<String>,
    pub date_updated: Option<Timestamp>,
}

impl Default for FeedBuilder {
    fn default() -> (r: Self)
        ensures
            r == (FeedBuilder {
                id: None,
                title: None,
                home_url: None,
                feed_url: None,
                author: None,
                email: None,
                date_updated: None,
            }),
    {
        FeedBuilder::new()
    }
}

impl FeedBuilder {
    pub open spec fn wf(self) -> bool {
        self.date_updated is Some ==> self.date_updated->Some_0.wf()
    }

    /// The message of the validation error that `build` gives for this
    /// builder, or `None` where every mandatory field is set.
    pub open spec fn missing(self) -> Option<Seq<char>> {
        if self.id is None {
            Some("Feed id is mandatory"@)
        } else if self.title is None {
            Some("Feed title is mandatory"@)
        } else if self.home_url is None {
            Some("Feed home URL is mandatory"@)
        } else if self.feed_url is None {
            Some("Feed URL is mandatory"@)
        } else if self.author is None {
            Some("Feed author is mandatory"@)
        } else if self.email is None {
            Some("Feed email is mandatory"@)
        } else {
            None
        }
    }

    pub fn new() -> (r: Self)
        ensures
            r == (FeedBuilder {
                id: None,
                title: None,
                home_url: None,
                feed_url: None,
                author: None,
                email: None,
                date_updated: None,
            }),
    {
        FeedBuilder {
            id: None,
            title: None,
            home_url: None,
            feed_url: None,
            author: None,
            email: None,
            date_updated: None,
        }
    }

    /// Sets the id of the feed.
    pub fn id(self, id: String) -> (r: Self)
        ensures
            r == (FeedBuilder { id: Some(id), ..self }),
    {
        FeedBuilder { id: Some(id), ..self }
    }

    /// Sets the title of the feed.
    pub fn title(self, title: String) -> (r: Self)
        ensures
            r == (FeedBuilder { title: Some(title), ..self }),
    {
        FeedBuilder { title: Some(title), ..self }
    }

    /// Sets the URL of the site that the feed describes.
    pub fn home_url(self, home_url: String) -> (r: Self)
        ensures
            r == (FeedBuilder { home_url: Some(home_url), ..self }),
    {
        FeedBuilder { home_url: Some(home_url), ..self }
    }

    /// Sets the URL where the feed document is published.
    pub fn feed_url(self, feed_url: String) -> (r: Self)
        ensures
            r == (FeedBuilder { feed_url: Some(feed_url), ..self }),
    {
        FeedBuilder { feed_url: Some(feed_url), ..self }
    }

    /// Sets the default author name of the entries.
    pub fn author(self, author: String) -> (r: Self)
        ensures
            r == (FeedBuilder { author: Some(author), ..self }),
    {
        FeedBuilder { author: Some(author), ..self }
    }

    /// Sets the default author email of the entries.
    pub fn email(self, email: String) -> (r: Self)
        ensures
            r == (FeedBuilder { email: Some(email), ..self }),
    {
        FeedBuilder { email: Some(email), ..self }
    }

    /// Sets the time the feed was last updated.
    pub fn date_updated(self, date: Timestamp) -> (r: Self)
        requires
            date.wf(),
        ensures
            r == (FeedBuilder { date_updated: Some(date), ..self }),
    {
        FeedBuilder { date_updated: Some(date), ..self }
    }

    /// Checks the mandatory fields in the order id, title, home URL, feed
    /// URL, author, email, and fails on the first one that is not set.
    pub fn build(self) -> (r: Result<Feed, Error>)
        requires
            self.wf(),
        ensures
            self.missing() is Some <==> r is Err,
            r is Err ==> r->Err_0.is_validation(self.missing()->Some_0),
            r is Ok ==> r->Ok_0 == (Feed {
                id: self.id->Some_0,
                title: self.title->Some_0,
                home_url: self.home_url->Some_0,
                feed_url: self.feed_url->Some_0,
                author: self.author->Some_0,
                email: self.email->Some_0,
                date_updated: self.date_updated,
            }),
            r is Ok ==> r->Ok_0.wf(),
    {
        let id = match self.id {
            Some(v) => v,
            None => return Err("Feed id is mandatory".into()),
        };
        let title = match self.title {
            Some(v) => v,
            None => return Err("Feed title is mandatory".into()),
        };
        let home_url = match self.home_url {
            Some(v) => v,
            None => return Err("Feed home URL is mandatory".into()),
        };
        let feed_url = match self.feed_url {
            Some(v) => v,
            None => return Err("Feed URL is mandatory".into()),
        };
        let author = match self.author {
            Some(v) => v,
            None => return Err("Feed author is mandatory".into()),
        };
        let email = match self.email {
            Some(v) => v,
            None => return Err("Feed email is mandatory".into()),
        };
        Ok(Feed { id, title, home_url, feed_url, author, email, date_updated: self.date_updated })
    }
}

/// One published item, with every mandatory field present.
#[derive(Debug)]
pub struct Entry {
    pub title: String,
    /// Also the Atom id of the entry.
    pub url: String,
    /// XHTML markup, embedded as it is.
    pub content: String,
    pub date: Timestamp,
    /// When absent, `date` stands in.
    pub date_updated: Option<Timestamp>,
    /// When absent, the feed's author stands in.
    pub author: Option<String>,
    /// When absent, the feed's email stands in.
    pub email: Option<String>,
}

impl Entry {
    pub open spec fn wf(self) -> bool {
        &&& self.date.wf()
        &&& self.date_updated is Some ==> self.date_updated->Some_0.wf()
    }
}

/// Collects the fields of an [`Entry`]; `build` checks that the mandatory
/// ones were set.
#[derive(Debug)]
pub struct EntryBuilder {
    pub title: Option<String>,
    pub url: Option<String>,
    pub content: Option<String>,
    pub date: Option<Timestamp>,
    pub date_updated: Option<Timestamp>,
    pub author: Option<String>,
    pub email: Option<String>,
}

impl Default for EntryBuilder {
    fn default() -> (r: Self)
        ensures
            r == (EntryBuilder {
                title: None,
                url: None,
                content: None,
                date: None,
                date_updated: None,
                author: None,
                email: None,
            }),
    {
        EntryBuilder::new()
    }
}

impl EntryBuilder {
    pub open spec fn wf(self) -> bool {
        &&& self.date is Some ==> self.date->Some_0.wf()
        &&& self.date_updated is Some ==> self.date_updated->Some_0.wf()
    }

    /// The message of the validation error that `build` gives for this
    /// builder, or `None` where every mandatory field is set.
    pub open spec fn missing(self) -> Option<Seq<char>> {
        if self.title is None {
            Some("Entry title is mandatory"@)
        } else if self.url is None {
            Some("Entry url is mandatory"@)
        } else if self.content is None {
            Some("Entry content is mandatory"@)
        } else if self.date is None {
            Some("Entry date is mandatory"@)
        } else {
            None
        }
    }

    pub fn new() -> (r: Self)
        ensures
            r == (EntryBuilder {
                title: None,
                url: None,
                content: None,
                date: None,
                date_updated: None,
                author: None,
                email: None,
            }),
    {
        EntryBuilder {
            title: None,
            url: None,
            content: None,
            date: None,
            date_updated: None,
            author: None,
            email: None,
        }
    }

    /// Sets the title of the entry.
    pub fn title(self, title: String) -> (r: Self)
        ensures
            r == (EntryBuilder { title: Some(title), ..self }),
    {
        EntryBuilder { title: Some(title), ..self }
    }

    /// Sets the URL of the entry, which is also its id.
    pub fn url(self, url: String) -> (r: Self)
        ensures
            r == (EntryBuilder { url: Some(url), ..self }),
    {
        EntryBuilder { url: Some(url), ..self }
    }

    /// Sets the XHTML content of the entry.
    pub fn content(self, content: String) -> (r: Self)
        ensures
            r == (EntryBuilder { content: Some(content), ..self }),
    {
        EntryBuilder { content: Some(content), ..self }
    }

    /// Sets the publication time of the entry.
    pub fn date(self, date: Timestamp) -> (r: Self)
        requires
            date.wf(),
        ensures
            r == (EntryBuilder { date: Some(date), ..self }),
    {
        EntryBuilder { date: Some(date), ..self }
    }

    /// Overrides the feed's author name for this entry.
    pub fn author(self, author: String) -> (r: Self)
        ensures
            r == (EntryBuilder { author: Some(author), ..self }),
    {
        EntryBuilder { author: Some(author), ..self }
    }

    /// Overrides the feed's author email for this entry.
    pub fn email(self, email: String) -> (r: Self)
        ensures
            r == (EntryBuilder { email: Some(email), ..self }),
    {
        EntryBuilder { email: Some(email), ..self }
    }

    /// Sets the time the entry was last updated.
    pub fn date_updated(self, date_updated: Timestamp) -> (r: Self)
        requires
            date_updated.wf(),
        ensures
            r == (EntryBuilder { date_updated: Some(date_updated), ..self }),
    {
        EntryBuilder { date_updated: Some(date_updated), ..self }
    }

    /// Checks the mandatory fields in the order title, url, content, date,
    /// and fails on the first one that is not set.
    pub fn build(self) -> (r: Result<Entry, Error>)
        requires
            self.wf(),
        ensures
            self.missing() is Some <==> r is Err,
            r is Err ==> r->Err_0.is_validation(self.missing()->Some_0),
            r is Ok ==> r->Ok_0 == (Entry {
                title: self.title->Some_0,
                url: self.url->Some_0,
                content: self.content->Some_0,
                date: self.date->Some_0,
                date_updated: self.date_updated,
                author: self.author,
                email: self.email,
            }),
            r is Ok ==> r->Ok_0.wf(),
    {
        let title = match self.title {
            Some(v) => v,
            None => return Err("Entry title is mandatory".into()),
        };
        let url = match self.url {
            Some(v) => v,
            None => return Err("Entry url is mandatory".into()),
        };
        let content = match self.content {
            Some(v) => v,
            None => return Err("Entry content is mandatory".into()),
        };
        let date = match self.date {
            Some(v) => v,
            None => return Err("Entry date is mandatory".into()),
        };
        Ok(Entry {
            title,
            url,
            content,
            date,
            date_updated: self.date_updated,
            author: self.author,
            email: self.email,
        })
    }
}

} // verus!
