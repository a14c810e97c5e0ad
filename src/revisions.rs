use vstd::prelude::*;
use crate::client::Client;
use crate::query::{arg, decimal, push_arg, to_decimal, with_arg};

verus! {

/// The endpoints of one resource group, bound to the client they go through.
pub struct Revisions {
    client: Client,
}

impl Revisions {
    pub closed spec fn client_view(&self) -> Client {
        self.client
    }

    pub fn new(client: Client) -> (r: Self)
        ensures
            r.client_view() == client,
    {
        Revisions { client }
    }

    pub fn client(&self) -> (r: &Client)
        ensures
            *r == self.client_view(),
    {
        &self.client
    }

    /// The query of a request for one page of a file's revisions: the page
    /// size when it is positive, then the page token when it is not empty.
    pub open spec fn drive_list_query(page_size: i64, page_token: Seq<char>) -> Seq<char> {
        let sized = if page_size > 0 {
            arg("page_size"@, decimal(page_size as nat))
        } else {
            Seq::empty()
        };
        if page_token.len() > 0 {
            with_arg(sized, arg("page_token"@, page_token))
        } else {
            sized
        }
    }

    /// The path of a file's revisions; `file_id` is a path segment as it is
    /// to be sent, already percent-encoded.
    pub open spec fn revisions_path(file_id: Seq<char>) -> Seq<char> {
        "/files/"@ + file_id + "/revisions"@
    }

    /// The path of one revision of a file.
    pub open spec fn revision_path(file_id: Seq<char>, revision_id: Seq<char>) -> Seq<char> {
        Self::revisions_path(file_id) + "/"@ + revision_id
    }

    fn revisions_path_of(file_id: &str) -> (r: String)
        ensures
            r@ == Self::revisions_path(file_id@),
    {
        proof {
            reveal_strlit("/files/");
            reveal_strlit("/revisions");
        }
        let mut p = String::from_str("/files/");
        p.append(file_id);
        p.append("/revisions");
        p
    }

    /// The URL path of a request for one page of a file's revisions.
    pub fn drive_list_url(file_id: &str, page_size: i64, page_token: &str) -> (r: String)
        ensures
            r@ == Self::revisions_path(file_id@) + "?"@ + Self::drive_list_query(page_size, page_token@),
    {
        let mut query = String::new();
        if page_size > 0 {
            let size = to_decimal(page_size as u64);
            push_arg(&mut query, "page_size", size.as_str());
        }
        if !page_token.is_empty() {
            push_arg(&mut query, "page_token", page_token);
        }
        let mut url = Self::revisions_path_of(file_id);
        url.append("?");
        url.append(query.as_str());
        url
    }

    /// The URL path that a walk over all of a file's revisions starts from.
    pub fn drive_list_revisions_url(file_id: &str) -> (r: String)
        ensures
            r@ == Self::revisions_path(file_id@),
    {
        Self::revisions_path_of(file_id)
    }

    /// The URL path of a request for one revision's metadata.
    pub fn drive_get_url(file_id: &str, revision_id: &str, acknowledge_abuse: bool) -> (r: String)
        ensures
            r@ == Self::revision_path(file_id@, revision_id@) + "?"@ + (if acknowledge_abuse {
                arg("acknowledge_abuse"@, "true"@)
            } else {
                Seq::empty()
            }),
    {
        let mut query = String::new();
        if acknowledge_abuse {
            push_arg(&mut query, "acknowledge_abuse", "true");
        }
        let mut url = Self::drive_revision_url(file_id, revision_id);
        url.append("?");
        url.append(query.as_str());
        url
    }

    /// The URL path that deletes or updates one revision.
    pub fn drive_revision_url(file_id: &str, revision_id: &str) -> (r: String)
        ensures
            r@ == Self::revision_path(file_id@, revision_id@),
    {
        proof {
            reveal_strlit("/");
        }
        let mut url = Self::revisions_path_of(file_id);
        url.append("/");
        url.append(revision_id);
        url
    }
}

} // verus!
