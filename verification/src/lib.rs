//! Verified core of a blockchain event pipeline: wire codec for account,
//! slot-status and transaction events, a filtering engine over 32-byte
//! identifiers, key derivation for the message log, and the batching
//! ingestion engine feeding an analytical sink.

pub mod codec;
pub mod codec_laws;
pub mod config;
pub mod consumer;
pub mod consumer_config;
pub mod events;
pub mod filter;
pub mod heimdall;
pub mod models;
pub mod processor;
pub mod publisher;
pub mod rows;
pub mod topic;
pub mod wire;

pub use config::{Config, ConfigFilter};
pub use consumer::{ConsumerEvent, StepResult};
pub use events::{
    EventMessage, MessageWrapper, SlotStatus, SlotStatusEvent, TransactionEvent,
    TransactionStatusMeta, UpdateAccountEvent,
};
pub use filter::Filter;
pub use heimdall::Heimdall;
pub use models::{AccountInfo, BlockInfo, TransactionInfo};
pub use processor::{FlushOutcome, ProcessOutcome, Processor, SinkBatch};
pub use rows::{AccountRow, SlotRow, TransactionRow};
