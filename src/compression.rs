//! A compression adapter: a strategy that callers supply, and a wrapper that
//! applies it to message buffers.

use vstd::prelude::*;

verus! {

/// A compression scheme for the buffers this crate sends, supplied by the
/// caller.
pub trait CompressionStrategy: Clone + Default + Send + Sync {
    /// Compresses the given buffer and returns the compression result.
    fn compress(&self, buffer: &[u8]) -> Vec<u8>;

    /// Decompresses the given buffer and returns the uncompressed result.
    fn decompress(&self, buffer: Vec<u8>) -> Result<Vec<u8>, ()>;
}

/// A packet of compressed data.
#[derive(Clone, Debug, PartialOrd, PartialEq)]
pub struct CompressedPacket {
    /// The compressed data.
    pub data: Vec<u8>,
}

/// Applies a compression strategy to buffers.
#[derive(Clone, Debug, PartialOrd, PartialEq)]
pub struct ModificationCompressor<S: CompressionStrategy> {
    strategy: S,
}

impl<S: CompressionStrategy> ModificationCompressor<S> {
    /// The strategy that this compressor applies.
    pub closed spec fn strategy_spec(&self) -> S {
        self.strategy
    }

    /// A compressor that applies `strategy`.
    pub fn new(strategy: S) -> (r: ModificationCompressor<S>)
        ensures
            r.strategy_spec() == strategy,
    {
        ModificationCompressor { strategy }
    }

    /// Compresses the given buffer with the strategy.
    pub fn compress(&self, buffer: &[u8]) -> (r: CompressedPacket)
        ensures
            call_ensures(S::compress, (&self.strategy_spec(), buffer), r.data),
    {
        CompressedPacket { data: self.strategy.compress(buffer) }
    }

    /// Decompresses the given buffer with the strategy.
    pub fn decompress(&self, buffer: Vec<u8>) -> (r: Result<Vec<u8>, ()>)
        ensures
            call_ensures(S::decompress, (&self.strategy_spec(), buffer), r),
    {
        self.strategy.decompress(buffer)
    }
}

impl<S: CompressionStrategy> Default for ModificationCompressor<S> {
    /// A compressor that applies the strategy's default.
    fn default() -> (r: Self)
        ensures
            call_ensures(S::default, (), r.strategy_spec()),
    {
        ModificationCompressor::new(S::default())
    }
}

} // verus!
