//! The records that settlement keeps, one of each family per transfer.

pub mod auction;
pub mod payer_sequence;
pub mod prepared_fill;
pub mod router_endpoint;

pub use auction::AuctionData;
pub use auction::AuctionDataView;
pub use auction::AuctionStatus;
pub use payer_sequence::PayerSequence;
pub use prepared_fill::Fill;
pub use prepared_fill::FillType;
pub use prepared_fill::FillView;
pub use prepared_fill::PreparedFill;
pub use prepared_fill::PreparedFillView;
pub use router_endpoint::RouterEndpoint;
pub use router_endpoint::RouterEndpointView;
