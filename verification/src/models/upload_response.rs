//! The outcome of an upload, as reported to the user.

use crate::text::join;
use vstd::prelude::*;

verus! {

/// What a provider may tell about a stored upload.
#[derive(Debug, Clone)]
pub struct ResponseMetadata {
    pub filename: Option<String>,
    pub file_size: Option<u64>,
    pub expiration: Option<String>,
    /// Further pairs of name and value, in the order given.
    pub provider_specific: Vec<(String, String)>,
}

/// Success with a URL, or failure with a reason.
#[derive(Debug, Clone)]
pub struct UploadResponse {
    pub success: bool,
    pub url: Option<String>,
    pub provider: String,
    pub error: Option<String>,
    pub metadata: Option<ResponseMetadata>,
}

impl Default for ResponseMetadata {
    /// Nothing known.
    fn default() -> (r: Self)
        ensures
            r.filename.is_none(),
            r.file_size.is_none(),
            r.expiration.is_none(),
            r.provider_specific@.len() == 0,
    {
        ResponseMetadata {
            filename: None,
            file_size: None,
            expiration: None,
            provider_specific: Vec::new(),
        }
    }
}

/// How one failure reads in the summary: provider, colon, reason.
pub open spec fn failure_line(e: UploadResponse) -> Seq<char> {
    e.provider@ + ": "@ + (match e.error {
        Some(reason) => reason@,
        None => "Unknown"@,
    })
}

/// The lines of those responses that are failures, in order.
pub open spec fn failure_lines(responses: Seq<UploadResponse>) -> Seq<Seq<char>>
    decreases responses.len(),
{
    if responses.len() == 0 {
        Seq::empty()
    } else {
        let before = failure_lines(responses.drop_last());
        if responses.last().success {
            before
        } else {
            before.push(failure_line(responses.last()))
        }
    }
}

/// The reason given when every provider has failed.
pub open spec fn all_failed_message(responses: Seq<UploadResponse>) -> Seq<char> {
    "All providers failed: "@ + join(failure_lines(responses), "; "@)
}

impl UploadResponse {
    /// A successful upload to `provider`, reachable under `url`.
    pub fn success(url: String, provider: String, metadata: Option<ResponseMetadata>) -> (r: Self)
        ensures
            r.success,
            r.url == Some(url),
            r.provider == provider,
            r.error.is_none(),
            r.metadata == metadata,
    {
        UploadResponse { success: true, url: Some(url), provider, error: None, metadata }
    }

    /// A failed upload to `provider`, with the reason.
    pub fn failed(provider: String, error: String) -> (r: Self)
        ensures
            !r.success,
            r.url.is_none(),
            r.provider == provider,
            r.error == Some(error),
            r.metadata.is_none(),
    {
        UploadResponse { success: false, url: None, provider, error: Some(error), metadata: None }
    }

    /// The failure that stands for a whole round of failed providers: its
    /// reason lists, for each response that is a failure, the provider and
    /// what it reported.
    pub fn all_providers_failed(errors: Vec<UploadResponse>) -> (r: Self)
        ensures
            !r.success,
            r.url.is_none(),
            r.provider@ == "all"@,
            r.error matches Some(reason) && reason@ == all_failed_message(errors@),
            r.metadata.is_none(),
    {
        let mut message = String::from_str("All providers failed: ");
        let mut first = true;
        let mut i: usize = 0;
        proof {
            assert(errors@.take(0) =~= Seq::<UploadResponse>::empty());
            assert(message@ =~= all_failed_message(errors@.take(0)));
        }
        while i < errors.len()
            invariant
                i <= errors@.len(),
                message@ == all_failed_message(errors@.take(i as int)),
                first == (failure_lines(errors@.take(i as int)).len() == 0),
            decreases errors@.len() - i,
        {
            let e = &errors[i];
            proof {
                assert(errors@.take(i + 1).drop_last() =~= errors@.take(i as int));
                assert(errors@.take(i + 1).last() == errors@[i as int]);
            }
            if !e.success {
                let ghost before = failure_lines(errors@.take(i as int));
                let ghost line = failure_line(errors@[i as int]);
                let ghost start = message@;
                proof {
                    assert(before.push(line).drop_last() =~= before);
                }
                if !first {
                    message.append("; ");
                }
                message.append(e.provider.as_str());
                message.append(": ");
                match &e.error {
                    Some(reason) => message.append(reason.as_str()),
                    None => message.append("Unknown"),
                }
                first = false;
                proof {
                    if before.len() == 0 {
                        assert(join(before, "; "@) =~= Seq::<char>::empty());
                        assert(message@ =~= "All providers failed: "@ + join(
                            before.push(line),
                            "; "@,
                        ));
                    } else {
                        assert(message@ =~= "All providers failed: "@ + join(
                            before.push(line),
                            "; "@,
                        ));
                    }
                }
            }
            i += 1;
        }
        proof {
            assert(errors@.take(errors@.len() as int) =~= errors@);
        }
        UploadResponse {
            success: false,
            url: None,
            provider: String::from_str("all"),
            error: Some(message),
            metadata: None,
        }
    }
}

} // verus!
