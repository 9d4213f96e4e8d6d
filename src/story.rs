use vstd::prelude::*;

verus! {

/// One entry of a story feed, as the item source hands it over. The list view
/// treats it as read-only; it holds no comments, so copying it is cheap.
#[derive(Debug, Clone)]
pub struct Story {
    pub id: u32,
    pub title: String,
    pub url: String,
    pub author: String,
    pub points: u32,
    pub num_comments: u32,
    /// Creation time, in seconds since the Unix epoch.
    pub time: u64,
}

impl Story {
    /// A field-by-field copy of the story.
    pub fn duplicate(&self) -> (r: Story)
        ensures
            r == *self,
    {
        Story {
            id: self.id,
            title: self.title.clone(),
            url: self.url.clone(),
            author: self.author.clone(),
            points: self.points,
            num_comments: self.num_comments,
            time: self.time,
        }
    }
}

} // verus!
