use vstd::prelude::*;

verus! {

/// The body of a request that creates a category.
#[derive(Debug, Clone)]
pub struct CreateCategorySchema {
    pub title: Option<String>,
    pub thumbnail: Option<String>,
    pub user_id: Option<String>,
    pub status: Option<String>,
    pub sub_categories: Option<Vec<String>>,
    pub published: Option<bool>,
}

/// The body of a request that changes a category; absent fields stay as they are.
#[derive(Debug, Clone)]
pub struct UpdateCategorySchema {
    pub title: Option<String>,
    pub thumbnail: Option<String>,
    pub user_id: Option<String>,
    pub status: Option<String>,
    pub sub_categories: Option<Vec<String>>,
    pub published: Option<bool>,
}

impl Default for CreateCategorySchema {
    fn default() -> (r: Self)
        ensures
            r.title is None && r.thumbnail is None && r.user_id is None && r.status is None
                && r.sub_categories is None && r.published is None,
    {
        CreateCategorySchema {
            title: None,
            thumbnail: None,
            user_id: None,
            status: None,
            sub_categories: None,
            published: None,
        }
    }
}

impl Default for UpdateCategorySchema {
    fn default() -> (r: Self)
        ensures
            r.title is None && r.thumbnail is None && r.user_id is None && r.status is None
                && r.sub_categories is None && r.published is None,
    {
        UpdateCategorySchema {
            title: None,
            thumbnail: None,
            user_id: None,
            status: None,
            sub_categories: None,
            published: None,
        }
    }
}

} // verus!
