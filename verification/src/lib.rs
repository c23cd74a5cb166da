//! Slot-aware AIMD congestion control for Solana TPU clients.

pub mod congestion;
pub mod error;
pub mod metrics;
pub mod properties;
pub mod tpu_client;
pub mod types;

pub use congestion::{CongestionController, ControllerModel};
pub use error::{TpuCcError, TpuCcResult};
pub use metrics::MetricsRecorder;
pub use tpu_client::{
    tally_batch, ClientModel, SendResult, SimulatedFailures, SlotPoll, Tally, TpuClientCc,
};
pub use types::{
    CongestionConfig, CongestionPhase, SendStats, WindowState, SLOT_DURATION_MS, WINDOW_INITIAL,
    WINDOW_MAX, WINDOW_MIN,
};
