pub mod address;
pub mod amount;
pub mod laws;
pub mod payload;

pub use address::Address;
pub use amount::{Amount, Wide};
pub use payload::{
    AppResponse, CollectErc20Payload, DistributeBasePayload, DistributeErc20Payload, FlowError,
    FromWalletWithPercent, ReceiversWithProportions,
};
pub mod workflow;

pub use workflow::{Action, ActionService, Event, Flow, Phase, Workflow};
