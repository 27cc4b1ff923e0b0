use change_ledger::compression::{CompressionStrategy, ModificationCompressor};

#[derive(Clone, Default)]
struct Reverse;

impl CompressionStrategy for Reverse {
    fn compress(&self, buffer: &[u8]) -> Vec<u8> {
        buffer.iter().rev().copied().collect()
    }

    fn decompress(&self, buffer: Vec<u8>) -> Result<Vec<u8>, ()> {
        if buffer.is_empty() {
            Err(())
        } else {
            Ok(buffer.into_iter().rev().collect())
        }
    }
}

#[test]
fn compressor_applies_strategy() {
    let c = ModificationCompressor::new(Reverse);
    let packet = c.compress(&[1, 2, 3]);
    assert_eq!(packet.data, vec![3, 2, 1]);
    assert_eq!(c.decompress(packet.data), Ok(vec![1, 2, 3]));
}

#[test]
fn compressor_passes_strategy_error() {
    let c: ModificationCompressor<Reverse> = ModificationCompressor::default();
    assert_eq!(c.decompress(Vec::new()), Err(()));
}
