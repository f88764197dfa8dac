//! The host adapter's delivery channel: file blobs picked on the host side
//! arrive as messages through a std mpsc channel, and the frame loop drains
//! whatever is pending without blocking.

use std::sync::mpsc;
use vstd::prelude::*;

verus! {

#[verifier::external_type_specification]
#[verifier::external_body]
#[verifier::reject_recursive_types(T)]
pub struct ExSender<T>(mpsc::Sender<T>);

#[verifier::external_type_specification]
#[verifier::external_body]
#[verifier::reject_recursive_types(T)]
pub struct ExReceiver<T>(mpsc::Receiver<T>);

/// A file blob delivered by the host: its name and its bytes, tagged by
/// what the host means it as.
#[derive(Debug)]
pub enum FileProcesserMessage {
    /// A raw program image to load.
    BinaryFile((String, Vec<u8>)),
    /// An assembler source text.
    SourceFile((String, Vec<u8>)),
}

/// Collects messages that host-side tasks hand over asynchronously.
#[verifier::reject_recursive_types(T)]
pub struct FileProcesser<T> {
    tx: mpsc::Sender<T>,
    rx: mpsc::Receiver<T>,
}

/// Relies on std's `mpsc::channel`: a connected sender/receiver pair.
/// Nothing is promised of the pair beyond its existence.
#[verifier::external_body]
fn channel_pair<T>() -> (mpsc::Sender<T>, mpsc::Receiver<T>) {
    mpsc::channel()
}

/// Relies on std's `Receiver::try_recv`: the next pending message without
/// blocking, or `None` when the queue is empty or disconnected. What
/// arrives depends on other threads, so nothing is promised of the result.
#[verifier::external_body]
fn try_recv_next<T>(rx: &mpsc::Receiver<T>) -> Option<T> {
    rx.try_recv().ok()
}

/// Relies on std's `Sender::clone`: a handle sending into the same queue.
#[verifier::external_body]
fn clone_sender<T>(tx: &mpsc::Sender<T>) -> mpsc::Sender<T> {
    tx.clone()
}

impl<T> FileProcesser<T> {
    /// A processer with a fresh, empty delivery queue.
    pub fn new() -> Self {
        let (tx, rx) = channel_pair();
        Self { tx, rx }
    }

    /// A sender for host-side tasks to deliver through.
    pub fn sender(&self) -> mpsc::Sender<T> {
        clone_sender(&self.tx)
    }

    /// Drains and returns every message pending right now, in arrival
    /// order. What arrives depends on the host's tasks; the messages
    /// themselves pass through untouched.
    pub fn consume_messages(&self) -> Vec<T> {
        let mut messages = Vec::new();
        let mut budget: u64 = u64::MAX;
        while budget > 0
            decreases budget,
        {
            match try_recv_next(&self.rx) {
                Some(m) => messages.push(m),
                None => {
                    return messages;
                },
            }
            budget = budget - 1;
        }
        messages
    }
}

} // verus!
