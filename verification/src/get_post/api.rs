//! The request and answer forms of the post page.

use vstd::prelude::*;
use vstd::string::StringSliceAdditionalSpecFns;

use crate::common::error::{result_view, ApiError, ApiErrorView};
use crate::common::utils::{format_id, id_text, parse_id, spec_parse_id};
use crate::common::{PostContent, PostContentView, PostId};
use super::{PostInfoForPage, Query};

verus! {

/// The post a request names, from the textual identifier in its path.
pub fn to_input(id: &str) -> (r: Result<Query, ApiError>)
    requires
        id.spec_bytes().len() <= usize::MAX - 7,
    ensures
        result_view(r) == match spec_parse_id(id.spec_bytes()) {
            Ok(n) => Ok::<PostId, ApiErrorView>(PostId(n)),
            Err(e) => Err(e),
        },
{
    match parse_id(id) {
        Ok(n) => Ok(PostId(n)),
        Err(e) => Err(e),
    }
}

/// The answered page: a text post fills `post`, a link fills `url`.
#[allow(non_snake_case)]
#[derive(Debug)]
pub struct ResponseDto {
    pub creatorId: String,
    pub creatorName: String,
    pub creationTime: u64,
    pub title: String,
    pub post: Option<String>,
    pub url: Option<String>,
    pub lastModified: Option<u64>,
}

pub open spec fn text_option(s: Option<String>) -> Option<Seq<char>> {
    match s {
        Some(s) => Some(s@),
        None => None,
    }
}

pub fn output_to_response(output: PostInfoForPage) -> (r: ResponseDto)
    ensures
        r.creatorId@ == id_text(output.creator.id.0),
        r.creatorName@ == output.creator.name@,
        r.creationTime == output.creation.utc,
        r.title@ == output.title@,
        text_option(r.post) == match output.content@ {
            PostContentView::Post(text) => Some(text),
            PostContentView::Url(_) => None::<Seq<char>>,
        },
        text_option(r.url) == match output.content@ {
            PostContentView::Post(_) => None::<Seq<char>>,
            PostContentView::Url(link) => Some(link),
        },
        r.lastModified == match output.last_modified {
            Some(t) => Some(t.utc),
            None => None::<u64>,
        },
{
    let (post, url) = match output.content {
        PostContent::Post(post) => (Some(post), None),
        PostContent::Url(url) => (None, Some(url.to_string())),
    };
    let last_modified = match output.last_modified {
        Some(t) => Some(t.utc),
        None => None,
    };
    ResponseDto {
        creatorId: format_id(output.creator.id.0),
        creatorName: output.creator.name.into_string(),
        creationTime: output.creation.utc,
        title: output.title.into_string(),
        post,
        url,
        lastModified: last_modified,
    }
}

} // verus!
