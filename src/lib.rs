//! Readiness signalling for an etcd node under CloudFormation: the decisions
//! of the health poller, the health relay, instance metadata handling and the
//! lookup of the stack and logical resource that own this instance.
pub mod args;
pub mod text;
pub mod tls;
pub mod health;
pub mod locate;
pub mod metadata;
pub mod relay;
