//! The per-worker sink state: an ordered buffer of raw document lines,
//! the connection-mode decision, the mapping from response statuses to
//! outcomes, and the chunked flush discipline.

use vstd::prelude::*;
use crate::config::{ConnectionPlan, Credentials, EsConfig};
use crate::{spec_chunk_size, spec_num_chunks};

verus! {

/// A failure reported by the remote index.
#[derive(Debug, Clone, Copy, PartialEq, Eq, Structural)]
pub enum SinkError {
    /// The exists probe answered with a status other than 200 or 404.
    UnexpectedStatus { status: u16 },
    /// The create-index request answered outside the 2xx range.
    CreateFailed { status: u16 },
    /// A bulk submission answered outside the 2xx range.
    BulkFailed { status: u16 },
}

/// A response status in the 2xx range.
pub open spec fn spec_is_success(status: u16) -> bool {
    200 <= status < 300
}

/// Maps the status of the exists probe: 200 means the index is there,
/// 404 means it is not, anything else is an error that keeps the status.
pub fn indices_exists_outcome(status: u16) -> (r: Result<bool, SinkError>)
    ensures
        r == (if status == 200 {
            Result::<bool, SinkError>::Ok(true)
        } else if status == 404 {
            Result::<bool, SinkError>::Ok(false)
        } else {
            Result::<bool, SinkError>::Err(SinkError::UnexpectedStatus { status })
        }),
{
    if status == 200 {
        Ok(true)
    } else if status == 404 {
        Ok(false)
    } else {
        Err(SinkError::UnexpectedStatus { status })
    }
}

/// Maps the status of the create-index request: any 2xx answer is success.
pub fn indices_create_outcome(status: u16) -> (r: Result<(), SinkError>)
    ensures
        r == (if spec_is_success(status) {
            Result::<(), SinkError>::Ok(())
        } else {
            Result::<(), SinkError>::Err(SinkError::CreateFailed { status })
        }),
{
    if 200 <= status && status < 300 {
        Ok(())
    } else {
        Err(SinkError::CreateFailed { status })
    }
}

/// Maps the status of a bulk submission: any 2xx answer means the chunk was
/// delivered; anything else is fatal for the worker.
pub fn bulk_submit_outcome(status: u16) -> (r: Result<(), SinkError>)
    ensures
        r == (if spec_is_success(status) {
            Result::<(), SinkError>::Ok(())
        } else {
            Result::<(), SinkError>::Err(SinkError::BulkFailed { status })
        }),
{
    if 200 <= status && status < 300 {
        Ok(())
    } else {
        Err(SinkError::BulkFailed { status })
    }
}

/// A per-worker accumulator of raw document lines, flushed in chunks of at
/// most `config.buffer_size` documents.
#[derive(Debug)]
pub struct ElasticsearchOutput {
    pub buffer: Vec<String>,
    pub config: EsConfig,
}

impl ElasticsearchOutput {
    pub open spec fn wf(&self) -> bool {
        self.config.wf()
    }

    /// A fresh worker state over a validated configuration, with an empty
    /// buffer.
    pub fn new(config: EsConfig) -> (r: ElasticsearchOutput)
        requires
            config.wf(),
        ensures
            r.wf(),
            r.config == config,
            r.buffer@ == Seq::<String>::empty(),
    {
        ElasticsearchOutput { buffer: Vec::new(), config }
    }

    /// Appends one raw document line to the buffer; order is kept.
    pub fn add_document(&mut self, document: String)
        ensures
            final(self).config == old(self).config,
            final(self).buffer@ == old(self).buffer@.push(document),
    {
        self.buffer.push(document);
    }

    /// Basic-auth credentials are used exactly when both a user and a
    /// password are configured.
    pub fn create_credentials(config: &EsConfig) -> (r: Option<Credentials>)
        ensures
            match r {
                Some(c) => {
                    &&& config.user == Some(c.user)
                    &&& config.password == Some(c.password)
                },
                None => !(config.user is Some && config.password is Some),
            },
            r is Some <==> (config.user is Some && config.password is Some),
    {
        match &config.user {
            None => None,
            Some(user) => match &config.password {
                None => None,
                Some(password) => Some(
                    Credentials { user: user.clone(), password: password.clone() },
                ),
            },
        }
    }

    /// Decides the connection mode: a configured cloud id wins and always
    /// carries credentials; otherwise a single node at `url`, with basic
    /// auth exactly when both credentials are configured.
    pub fn connection_plan(config: &EsConfig) -> (r: ConnectionPlan)
        requires
            config.wf(),
        ensures
            match r {
                ConnectionPlan::Cloud { cloud_id, credentials } => {
                    &&& config.cloud_id == Some(cloud_id)
                    &&& config.user == Some(credentials.user)
                    &&& config.password == Some(credentials.password)
                },
                ConnectionPlan::SingleNode { url, credentials } => {
                    &&& config.cloud_id is None
                    &&& url == config.url
                    &&& match credentials {
                        Some(c) => {
                            &&& config.user == Some(c.user)
                            &&& config.password == Some(c.password)
                        },
                        None => !(config.user is Some && config.password is Some),
                    }
                },
            },
            r is Cloud <==> config.cloud_id is Some,
    {
        match &config.cloud_id {
            Some(cloud_id) => {
                let credentials = match Self::create_credentials(config) {
                    Some(c) => c,
                    None => {
                        // unreachable: well-formedness gives both credentials
                        proof {
                            assert(false);
                        }
                        Credentials { user: String::new(), password: String::new() }
                    },
                };
                ConnectionPlan::Cloud { cloud_id: cloud_id.clone(), credentials }
            },
            None => ConnectionPlan::SingleNode {
                url: config.url.clone(),
                credentials: Self::create_credentials(config),
            },
        }
    }

    /// Drains the buffer into the ordered list of chunks that one flush
    /// submits: full chunks of `buffer_size` documents, then a final shorter
    /// chunk for a remainder. An empty buffer yields no chunk at all.
    pub fn close(&mut self) -> (chunks: Vec<Vec<String>>)
        requires
            old(self).wf(),
        ensures
            final(self).wf(),
            final(self).config == old(self).config,
            final(self).buffer@ == Seq::<String>::empty(),
            chunks@.len() == spec_num_chunks(
                old(self).buffer@.len(),
                old(self).config.buffer_size as nat,
            ),
            forall|i: int|
                0 <= i < chunks@.len() - 1 ==> (#[trigger] chunks@[i])@.len()
                    == old(self).config.buffer_size,
            chunks@.len() > 0 ==> 1 <= chunks@.last()@.len() <= old(self).config.buffer_size,
            chunks@.len() > 0 ==> chunks@[0]@.len() == spec_chunk_size(
                old(self).buffer@.len(),
                old(self).config.buffer_size as nat,
            ),
            chunks@.map_values(|c: Vec<String>| c@).flatten() == old(self).buffer@,
    {
        let ghost buf0 = self.buffer@;
        let n: usize = self.buffer.len();
        let b: usize = self.config.buffer_size;
        let mut chunks: Vec<Vec<String>> = Vec::new();
        let mut pos: usize = 0;
        while pos < n
            invariant
                *self == *old(self),
                self.wf(),
                b == self.config.buffer_size,
                b >= 1,
                n == buf0.len(),
                self.buffer@ == buf0,
                pos <= n,
                forall|i: int|
                    0 <= i < chunks@.len() - 1 ==> (#[trigger] chunks@[i])@.len() == b,
                chunks@.len() > 0 ==> 1 <= chunks@.last()@.len() <= b,
                chunks@.len() > 0 && pos < n ==> chunks@.last()@.len() == b,
                chunks@.len() == 0 ==> pos == 0,
                chunks@.len() > 0 ==> chunks@[0]@.len() == spec_chunk_size(n as nat, b as nat),
                chunks@.map_values(|c: Vec<String>| c@).flatten() == buf0.take(pos as int),
                spec_num_chunks(n as nat, b as nat) == chunks@.len() + spec_num_chunks(
                    (n - pos) as nat,
                    b as nat,
                ),
            decreases n - pos,
        {
            let remaining: usize = n - pos;
            let end: usize = if remaining <= b {
                n
            } else {
                pos + b
            };
            let mut chunk: Vec<String> = Vec::new();
            let mut j: usize = pos;
            while j < end
                invariant
                    *self == *old(self),
                    self.buffer@ == buf0,
                    n == buf0.len(),
                    pos <= j <= end,
                    end <= n,
                    chunk@ == buf0.subrange(pos as int, j as int),
                decreases end - j,
            {
                chunk.push(self.buffer[j].clone());
                assert(chunk@ =~= buf0.subrange(pos as int, j + 1 as int));
                j += 1;
            }
            proof {
                let f = |c: Vec<String>| c@;
                let m0 = chunks@.map_values(f);
                assert(chunks@.push(chunk).map_values(f) =~= m0.push(chunk@));
                m0.lemma_flatten_push(chunk@);
                assert(buf0.take(end as int) =~= buf0.take(pos as int) + buf0.subrange(
                    pos as int,
                    end as int,
                ));
            }
            chunks.push(chunk);
            pos = end;
        }
        proof {
            assert(buf0.take(n as int) =~= buf0);
        }
        self.buffer.clear();
        chunks
    }
}

} // verus!
