//! Benchmarked dispatch weights of the relayer, reputation and witnesser
//! pallets, and the deposit-channel recycling logic of the ingress/egress
//! pallet, with their contracts.

pub mod weight;

pub mod relayer;
pub mod reputation;
pub mod witnesser;

pub mod ingress_egress;
