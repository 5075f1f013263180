use wake_pipeline::audio::downmix_pairs;
use wake_pipeline::audio::Aggregator;
use wake_pipeline::audio::BlockBuffer;
use wake_pipeline::audio::AGGREGATE_THRESHOLD;
use wake_pipeline::audio::TARGET_SAMPLE_RATE;

#[test]
fn aggregator_holds_below_threshold() {
    let mut agg = Aggregator::new(5);
    assert_eq!(agg.threshold(), 5);
    assert_eq!(agg.push(&vec![1, 2]), None);
    assert_eq!(agg.push(&vec![3, 4]), None);
}

#[test]
fn aggregator_emits_everything_at_threshold() {
    let mut agg = Aggregator::new(5);
    assert_eq!(agg.push(&vec![1, 2]), None);
    assert_eq!(agg.push(&vec![3, 4, 5]), Some(vec![1, 2, 3, 4, 5]));
}

#[test]
fn aggregator_emits_exactly_at_boundary() {
    let mut agg = Aggregator::new(4);
    assert_eq!(agg.push(&vec![1, 2, 3, 4]), Some(vec![1, 2, 3, 4]));
}

#[test]
fn aggregator_resets_after_emission() {
    let mut agg = Aggregator::new(3);
    assert_eq!(agg.push(&vec![1, 2, 3, 4]), Some(vec![1, 2, 3, 4]));
    // The accumulator starts over: nothing of the emitted chunk is carried.
    assert_eq!(agg.push(&vec![5]), None);
    assert_eq!(agg.push(&vec![6]), None);
    assert_eq!(agg.push(&vec![7]), Some(vec![5, 6, 7]));
}

#[test]
fn aggregator_same_sequence_same_boundaries() {
    let chunks: Vec<Vec<i16>> = vec![vec![1, 2], vec![3], vec![4, 5, 6], vec![7], vec![8, 9]];
    let run = || {
        let mut agg = Aggregator::new(4);
        let mut emitted: Vec<Option<Vec<i16>>> = Vec::new();
        for c in &chunks {
            emitted.push(agg.push(c));
        }
        emitted
    };
    assert_eq!(run(), run());
}

#[test]
fn aggregate_threshold_is_about_200ms() {
    assert_eq!(TARGET_SAMPLE_RATE, 16000);
    assert_eq!(AGGREGATE_THRESHOLD, 5333);
}

#[test]
fn block_buffer_never_emits_partial_blocks() {
    let mut buf = BlockBuffer::new(4);
    assert_eq!(buf.block_size(), 4);
    buf.push(&vec![1, 2, 3]);
    assert!(!buf.has_block());
    assert_eq!(buf.take_block(), None);
    buf.push(&vec![4, 5]);
    assert!(buf.has_block());
    assert_eq!(buf.take_block(), Some(vec![1, 2, 3, 4]));
    assert_eq!(buf.take_block(), None);
}

#[test]
fn block_buffer_drains_multiple_blocks_in_order() {
    let mut buf = BlockBuffer::new(2);
    buf.push(&vec![1, 2, 3, 4, 5]);
    assert_eq!(buf.take_block(), Some(vec![1, 2]));
    assert_eq!(buf.take_block(), Some(vec![3, 4]));
    assert_eq!(buf.take_block(), None);
    buf.push(&vec![6]);
    assert_eq!(buf.take_block(), Some(vec![5, 6]));
}

#[test]
fn downmix_averages_each_channel_pair() {
    let frame: Vec<f32> = vec![0.25, 0.75, -1.0, 1.0, 0.5, 0.5];
    let mono = downmix_pairs(&frame, |a, b| (a + b) / 2.0);
    assert_eq!(mono.len(), frame.len() / 2);
    assert_eq!(mono, vec![0.5f32, 0.0, 0.5]);
}

#[test]
fn downmix_drops_a_trailing_unpaired_sample() {
    let frame: Vec<i32> = vec![2, 4, 7];
    let mono = downmix_pairs(&frame, |a, b| (a + b) / 2);
    assert_eq!(mono, vec![3]);
}

#[test]
fn downmix_of_empty_frame_is_empty() {
    let frame: Vec<i32> = Vec::new();
    let mono = downmix_pairs(&frame, |a, b| (a + b) / 2);
    assert!(mono.is_empty());
}

#[test]
fn block_buffer_carries_float_samples() {
    let mut buf: BlockBuffer<f32> = BlockBuffer::new(2);
    buf.push(&vec![0.5, -0.5, 1.0]);
    assert_eq!(buf.take_block(), Some(vec![0.5, -0.5]));
    assert_eq!(buf.take_block(), None);
}
