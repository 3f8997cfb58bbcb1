//! One reindexing run as a state machine: determine the version behind the
//! alias, create the next index, load it batch by batch up to the document
//! cap, swap the alias in one request, then drop the old index unless it is
//! to be kept. The caller performs each request the machine hands out and
//! reports the outcome back.

use vstd::prelude::*;
use crate::alias::{AliasAction, INDEX_ALIAS, swap_alias_actions, swap_actions_ok};
use crate::batching::{batch_take, bulk_body, BULK_INDEX_HEADER};
use crate::index_version::{IndexVersion, index_name, version_in_name};
use crate::mapping::{IndexDefinition, article_index_definition, article_fields};

verus! {

/// Input configuration of a run.
#[derive(Debug, Clone, Copy)]
pub struct RunOpts {
    /// Milliseconds to wait between runs; `None` runs once.
    pub scrape_interval: Option<u32>,
    /// Most documents the new index may receive.
    pub max_news: u64,
    pub n_shards: u32,
    pub n_replicas: u32,
    /// Records pulled from the source per batch.
    pub ingest_batch: u32,
    /// Keep the previous index after the alias has moved.
    pub leave_old_index: bool,
}

/// A configuration that no run can start with.
#[derive(Debug, Clone, Copy, PartialEq, Eq, Structural)]
pub enum ConfigError {
    ZeroShards,
    ZeroBatch,
}

impl RunOpts {
    pub open spec fn valid(&self) -> bool {
        self.n_shards > 0 && self.ingest_batch > 0
    }

    /// Rejects a configuration before any request is made.
    pub fn validate(&self) -> (r: Result<(), ConfigError>)
        ensures
            r == (if self.n_shards == 0 {
                Err(ConfigError::ZeroShards)
            } else if self.ingest_batch == 0 {
                Err(ConfigError::ZeroBatch)
            } else {
                Ok(())
            }),
            r is Ok <==> self.valid(),
    {
        if self.n_shards == 0 {
            Err(ConfigError::ZeroShards)
        } else if self.ingest_batch == 0 {
            Err(ConfigError::ZeroBatch)
        } else {
            Ok(())
        }
    }

    /// How long to wait before the next run, if there is one: only after a
    /// run that succeeded, and only when an interval is set.
    pub fn next_run_delay(&self, succeeded: bool) -> (r: Option<u32>)
        ensures
            r == (if succeeded { self.scrape_interval } else { None }),
    {
        if succeeded { self.scrape_interval } else { None }
    }
}

/// Steps of a run, in order.
#[derive(Debug, Clone, Copy, PartialEq, Eq, Structural)]
pub enum Phase {
    DetermineVersion,
    CreateIndex,
    LoadBatches,
    SwapAlias,
    DeleteOldIndex,
    Done,
    Failed,
}

/// Why a run stopped.
#[derive(Debug)]
pub enum RunError {
    /// The alias stands on a number of indices other than one.
    AliasInvariant { n_indices: usize },
    /// The index behind the alias has a name without a version.
    InvalidIndexName { name: String },
    /// The version behind the alias is the largest one.
    VersionOverflow,
    /// A request to the store failed in the given phase.
    Store { phase: Phase, message: String },
}

/// Request to create the new index.
#[derive(Debug)]
pub struct CreateIndexRequest {
    pub index: String,
    pub definition: IndexDefinition,
}

/// Request to index one batch of documents, visible once it returns.
#[derive(Debug)]
pub struct BulkRequest {
    pub index: String,
    pub lines: Vec<String>,
    pub wait_for_refresh: bool,
}

/// Summary of a finished run.
#[derive(Debug)]
pub struct Stats {
    pub total_indexed: u64,
    pub total_processed: u64,
    pub new_index_name: String,
}

/// The version that a run determines from what stands behind the alias:
/// `Ok(None)` when there is no alias.
pub open spec fn prev_version_of(targets: Option<Seq<String>>) -> Result<Option<u32>, ()> {
    match targets {
        None => Ok(None),
        Some(t) => if t.len() == 1 {
            match version_in_name(t[0]@) {
                Some(v) => Ok(Some(v)),
                None => Err(()),
            }
        } else {
            Err(())
        },
    }
}

/// State of a run.
#[derive(Debug)]
pub struct Reindex {
    pub opts: RunOpts,
    pub phase: Phase,
    /// Version behind the alias when the run started.
    pub prev_version: Option<IndexVersion>,
    /// Version of the index this run fills.
    pub new_version: IndexVersion,
    pub new_index_name: String,
    /// Documents sent to the new index.
    pub total_indexed: u64,
    /// Records taken from the source and enriched.
    pub total_processed: u64,
}

impl Reindex {
    /// Once the version is known, the new one follows the old one (or is
    /// the first), and the new index carries its name.
    pub open spec fn versions_fixed(&self) -> bool {
        &&& self.new_version.0 == (match self.prev_version {
            Some(p) => p.0 + 1,
            None => 1,
        })
        &&& self.new_index_name@ == index_name(INDEX_ALIAS@, self.new_version.0 as nat)
    }

    pub open spec fn wf(&self) -> bool {
        &&& self.opts.valid()
        &&& self.total_indexed <= self.opts.max_news
        &&& self.total_indexed <= self.total_processed
        &&& (self.phase != Phase::DetermineVersion && self.phase != Phase::Failed
            ==> self.versions_fixed())
        &&& (self.phase == Phase::DetermineVersion ==> self.total_processed == 0)
        &&& (self.phase == Phase::CreateIndex ==> self.total_processed == 0)
    }

    /// Starts a run, or rejects its configuration.
    pub fn new(opts: RunOpts) -> (r: Result<Reindex, ConfigError>)
        ensures
            r is Ok <==> opts.valid(),
            opts.n_shards == 0 ==> r == Err::<Reindex, ConfigError>(ConfigError::ZeroShards),
            opts.n_shards > 0 && opts.ingest_batch == 0 ==> r == Err::<Reindex, ConfigError>(ConfigError::ZeroBatch),
            r matches Ok(s) ==> {
                &&& s.wf()
                &&& s.opts == opts
                &&& s.phase == Phase::DetermineVersion
                &&& s.total_indexed == 0
                &&& s.total_processed == 0
            },
    {
        match opts.validate() {
            Err(e) => Err(e),
            Ok(()) => Ok(Reindex {
                opts,
                phase: Phase::DetermineVersion,
                prev_version: None,
                new_version: IndexVersion(1),
                new_index_name: String::new(),
                total_indexed: 0,
                total_processed: 0,
            }),
        }
    }

    /// Takes what stands behind the alias (`None` when the alias does not
    /// exist) and hands out the request that creates the next index.
    pub fn on_alias_lookup(&mut self, targets: Option<Vec<String>>) -> (r: Result<CreateIndexRequest, RunError>)
        requires
            old(self).wf(),
            old(self).phase == Phase::DetermineVersion,
        ensures
            final(self).wf(),
            final(self).opts == old(self).opts,
            final(self).total_indexed == 0,
            final(self).total_processed == 0,
            match targets {
                None => r is Ok && final(self).prev_version is None,
                Some(t) => {
                    &&& (t@.len() != 1 ==> r == Err::<CreateIndexRequest, RunError>(
                        RunError::AliasInvariant { n_indices: t@.len() as usize }))
                    &&& (t@.len() == 1 ==> match version_in_name(t@[0]@) {
                        None => r matches Err(RunError::InvalidIndexName { name }) && name@ == t@[0]@,
                        Some(v) => if v == u32::MAX {
                            r matches Err(RunError::VersionOverflow)
                        } else {
                            r is Ok && final(self).prev_version == Some(IndexVersion(v))
                        },
                    })
                },
            },
            r is Err ==> final(self).phase == Phase::Failed,
            r matches Ok(req) ==> {
                &&& final(self).phase == Phase::CreateIndex
                &&& final(self).versions_fixed()
                &&& req.index@ == final(self).new_index_name@
                &&& req.definition.number_of_shards == old(self).opts.n_shards
                &&& req.definition.number_of_replicas == old(self).opts.n_replicas
                &&& article_fields(req.definition.fields@)
            },
    {
        let prev = match targets {
            None => None,
            Some(t) => {
                if t.len() != 1 {
                    self.phase = Phase::Failed;
                    return Err(RunError::AliasInvariant { n_indices: t.len() });
                }
                match IndexVersion::from_index_name(t[0].as_str()) {
                    None => {
                        self.phase = Phase::Failed;
                        return Err(RunError::InvalidIndexName { name: t[0].clone() });
                    },
                    Some(v) => Some(v),
                }
            },
        };
        let new_version = match prev {
            None => IndexVersion::default(),
            Some(v) => {
                if v.0 == u32::MAX {
                    self.phase = Phase::Failed;
                    return Err(RunError::VersionOverflow);
                }
                v.incremented()
            },
        };
        let name = new_version.attach_to_alias(INDEX_ALIAS);
        self.prev_version = prev;
        self.new_version = new_version;
        self.new_index_name = name.clone();
        self.phase = Phase::CreateIndex;
        Ok(CreateIndexRequest {
            index: name,
            definition: article_index_definition(self.opts.n_shards, self.opts.n_replicas),
        })
    }

    /// The new index exists: loading may begin.
    pub fn on_index_created(&mut self)
        requires
            old(self).wf(),
            old(self).phase == Phase::CreateIndex,
        ensures
            final(self).wf(),
            final(self).phase == Phase::LoadBatches,
            final(self).opts == old(self).opts,
            final(self).prev_version == old(self).prev_version,
            final(self).new_version == old(self).new_version,
            final(self).new_index_name@ == old(self).new_index_name@,
            final(self).total_indexed == 0,
            final(self).total_processed == 0,
    {
        self.phase = Phase::LoadBatches;
    }

    /// Whether another batch should be pulled: the cap is not reached yet.
    pub fn wants_more(&self) -> (r: bool)
        ensures
            r == (self.total_indexed < self.opts.max_news),
    {
        self.total_indexed < self.opts.max_news
    }

    /// How many records of a pulled batch of `offered` to enrich: no more
    /// than the cap leaves room for.
    pub fn batch_take(&self, offered: usize) -> (r: usize)
        requires
            self.wf(),
        ensures
            r as nat == batch_take(offered as nat, self.total_indexed as nat, self.opts.max_news as nat),
            r <= offered,
            r as nat + self.total_indexed as nat <= self.opts.max_news as nat,
    {
        let room: u64 = self.opts.max_news - self.total_indexed;
        if (offered as u64) <= room { offered } else { room as usize }
    }

    /// The bulk request for the serialised documents of a batch, to the new
    /// index; none when the batch is empty.
    pub fn bulk_request(&self, docs: &Vec<String>) -> (r: Option<BulkRequest>)
        requires
            self.wf(),
            self.phase == Phase::LoadBatches,
        ensures
            docs@.len() == 0 <==> r is None,
            r matches Some(req) ==> {
                &&& req.index@ == self.new_index_name@
                &&& req.wait_for_refresh
                &&& req.lines@.len() == 2 * docs@.len()
                &&& forall|i: int| 0 <= i < docs@.len() ==> (#[trigger] req.lines@[2 * i])@ == BULK_INDEX_HEADER@
                &&& forall|i: int| 0 <= i < docs@.len() ==> (#[trigger] req.lines@[2 * i + 1])@ == docs@[i]@
            },
    {
        if docs.len() == 0 {
            return None;
        }
        Some(BulkRequest {
            index: self.new_index_name.clone(),
            lines: bulk_body(docs),
            wait_for_refresh: true,
        })
    }

    /// Accounts a batch: `processed` records were taken and enriched, and
    /// `indexed` of them were written. Returns whether to pull another.
    pub fn on_batch_done(&mut self, processed: u64, indexed: u64) -> (r: bool)
        requires
            old(self).wf(),
            old(self).phase == Phase::LoadBatches,
            processed as nat + old(self).total_indexed as nat <= old(self).opts.max_news as nat,
            indexed <= processed,
            old(self).total_processed as nat + processed as nat <= u64::MAX,
        ensures
            final(self).wf(),
            final(self).phase == Phase::LoadBatches,
            final(self).opts == old(self).opts,
            final(self).prev_version == old(self).prev_version,
            final(self).new_version == old(self).new_version,
            final(self).new_index_name@ == old(self).new_index_name@,
            final(self).total_indexed == old(self).total_indexed + indexed,
            final(self).total_processed == old(self).total_processed + processed,
            final(self).total_indexed <= final(self).opts.max_news,
            r == (final(self).total_indexed < final(self).opts.max_news),
    {
        self.total_indexed = self.total_indexed + indexed;
        self.total_processed = self.total_processed + processed;
        self.total_indexed < self.opts.max_news
    }

    /// Loading is over (cap reached or source exhausted): the single request
    /// that moves the alias onto the new index.
    pub fn on_loading_done(&mut self) -> (r: Vec<AliasAction>)
        requires
            old(self).wf(),
            old(self).phase == Phase::LoadBatches,
        ensures
            final(self).wf(),
            final(self).phase == Phase::SwapAlias,
            final(self).opts == old(self).opts,
            final(self).prev_version == old(self).prev_version,
            final(self).new_version == old(self).new_version,
            final(self).new_index_name@ == old(self).new_index_name@,
            final(self).total_indexed == old(self).total_indexed,
            final(self).total_processed == old(self).total_processed,
            swap_actions_ok(r@, INDEX_ALIAS@, old(self).prev_version, old(self).new_version),
    {
        self.phase = Phase::SwapAlias;
        swap_alias_actions(INDEX_ALIAS, self.prev_version, self.new_version)
    }

    /// The alias has moved. Returns the old index to delete, if there was
    /// one and it is not to be kept.
    pub fn on_alias_swapped(&mut self) -> (r: Option<String>)
        requires
            old(self).wf(),
            old(self).phase == Phase::SwapAlias,
        ensures
            final(self).wf(),
            final(self).opts == old(self).opts,
            final(self).prev_version == old(self).prev_version,
            final(self).new_version == old(self).new_version,
            final(self).new_index_name@ == old(self).new_index_name@,
            final(self).total_indexed == old(self).total_indexed,
            final(self).total_processed == old(self).total_processed,
            match (old(self).prev_version, old(self).opts.leave_old_index) {
                (Some(p), false) => {
                    &&& r matches Some(name) && name@ == index_name(INDEX_ALIAS@, p.0 as nat)
                    &&& final(self).phase == Phase::DeleteOldIndex
                },
                _ => r is None && final(self).phase == Phase::Done,
            },
    {
        match self.prev_version {
            Some(p) => {
                if !self.opts.leave_old_index {
                    self.phase = Phase::DeleteOldIndex;
                    return Some(p.attach_to_alias(INDEX_ALIAS));
                }
            },
            None => {},
        }
        self.phase = Phase::Done;
        None
    }

    /// The old index is gone: the run is complete.
    pub fn on_old_index_deleted(&mut self)
        requires
            old(self).wf(),
            old(self).phase == Phase::DeleteOldIndex,
        ensures
            final(self).wf(),
            final(self).phase == Phase::Done,
            final(self).opts == old(self).opts,
            final(self).prev_version == old(self).prev_version,
            final(self).new_version == old(self).new_version,
            final(self).new_index_name@ == old(self).new_index_name@,
            final(self).total_indexed == old(self).total_indexed,
            final(self).total_processed == old(self).total_processed,
    {
        self.phase = Phase::Done;
    }

    /// Summary of a completed run.
    pub fn stats(&self) -> (r: Stats)
        requires
            self.wf(),
            self.phase == Phase::Done,
        ensures
            r.total_indexed == self.total_indexed,
            r.total_processed == self.total_processed,
            r.new_index_name@ == self.new_index_name@,
            r.new_index_name@ == index_name(INDEX_ALIAS@, self.new_version.0 as nat),
    {
        Stats {
            total_indexed: self.total_indexed,
            total_processed: self.total_processed,
            new_index_name: self.new_index_name.clone(),
        }
    }

    /// A request of the current phase failed: the run stops there, with the
    /// alias and the old index left as they were.
    pub fn fail(&mut self, message: String) -> (r: RunError)
        requires
            old(self).wf(),
            old(self).phase != Phase::Done,
            old(self).phase != Phase::Failed,
        ensures
            final(self).wf(),
            final(self).phase == Phase::Failed,
            final(self).opts == old(self).opts,
            final(self).total_indexed == old(self).total_indexed,
            final(self).total_processed == old(self).total_processed,
            r matches RunError::Store { phase, message: m } && phase == old(self).phase && m@ == message@,
    {
        let phase = self.phase;
        self.phase = Phase::Failed;
        RunError::Store { phase, message }
    }
}

} // verus!
