//! The stored form of a post's content: a type tag and a text.

use vstd::prelude::*;

use crate::common::{parse_url_outcome, url_parsed, PostContentView};
use crate::common::utils::Invalid;

verus! {

/// A post's content as the storage holds it: `post_type` is `"post"` or
/// `"url"`, `content` the text or the link's serialization.
pub struct PostContent<TypeStr = String> {
    pub post_type: TypeStr,
    pub content: String,
}

/// The stored form of a content.
pub open spec fn stored_form(model: PostContentView) -> (Seq<char>, Seq<char>) {
    match model {
        PostContentView::Post(text) => ("post"@, text),
        PostContentView::Url(link) => ("url"@, link),
    }
}

/// The content a stored form reads back as, if it reads back.
pub open spec fn spec_model(post_type: Seq<char>, content: Seq<char>) -> Option<PostContentView> {
    if post_type == "post"@ {
        Some(PostContentView::Post(content))
    } else if post_type == "url"@ {
        match url_parsed(content) {
            Ok(link) => Some(PostContentView::Url(link)),
            Err(_) => None,
        }
    } else {
        None
    }
}

impl PostContent<&'static str> {
    pub fn from_model(model: crate::common::PostContent) -> (r: PostContent<&'static str>)
        ensures
            (r.post_type@, r.content@) == stored_form(model@),
    {
        match model {
            crate::common::PostContent::Post(post) => PostContent { post_type: "post", content: post },
            crate::common::PostContent::Url(url) => PostContent {
                post_type: "url",
                content: url.to_string(),
            },
        }
    }
}

impl PostContent {
    /// Reads a stored content back; an unknown type tag fails validation.
    pub fn try_into_model(self) -> (r: Result<crate::common::PostContent, Invalid<String>>)
        ensures
            self.post_type@ == "post"@ ==> (r matches Ok(c) && c@ == PostContentView::Post(
                self.content@,
            )),
            self.post_type@ != "post"@ && self.post_type@ == "url"@ ==> parse_url_outcome(
                self.content@,
                r,
            ),
            self.post_type@ != "post"@ && self.post_type@ != "url"@ ==> (r matches Err(e)
                && e.value@ == self.post_type@ && e.body@ == "INVALID_POST_TYPE"@),
            r is Ok <==> spec_model(self.post_type@, self.content@) is Some,
            r matches Ok(c) ==> spec_model(self.post_type@, self.content@) == Some(c@),
    {
        if self.post_type == String::from_str("post") {
            Ok(crate::common::PostContent::Post(self.content))
        } else if self.post_type == String::from_str("url") {
            crate::common::PostContent::parse_url(self.content)
        } else {
            Err(Invalid::new(self.post_type, String::from_str("INVALID_POST_TYPE")))
        }
    }
}

/// A text post, stored and read back, is the same text post.
pub proof fn lemma_text_content_reads_back(text: Seq<char>)
    ensures
        spec_model(stored_form(PostContentView::Post(text)).0, stored_form(PostContentView::Post(text)).1)
            == Some(PostContentView::Post(text)),
{
}

/// A stored link reads back as the URL parser's reading of the stored
/// serialization.
pub proof fn lemma_link_content_reads_back(link: Seq<char>)
    ensures
        spec_model(stored_form(PostContentView::Url(link)).0, stored_form(PostContentView::Url(link)).1)
            == match url_parsed(link) {
            Ok(reparsed) => Some(PostContentView::Url(reparsed)),
            Err(_) => None,
        },
{
    reveal_strlit("post");
    reveal_strlit("url");
    assert("url"@.len() != "post"@.len());
}

} // verus!
