use pinmame_tester::channel::FrameChannel;
use pinmame_tester::error::HarnessError;

#[test]
fn consumer_sees_newest_of_several_frames() {
    let mut ch = FrameChannel::new();
    ch.send(vec![1]);
    ch.send(vec![2]);
    ch.send(vec![3]);
    assert_eq!(ch.try_receive(), Ok(Some(vec![3])));
    assert_eq!(ch.try_receive(), Ok(None));
}

#[test]
fn older_frame_never_follows_newer() {
    let mut ch = FrameChannel::new();
    ch.send(vec![1]);
    assert_eq!(ch.try_receive(), Ok(Some(vec![1])));
    ch.send(vec![2]);
    ch.send(vec![3]);
    assert_eq!(ch.try_receive(), Ok(Some(vec![3])));
    assert_eq!(ch.try_receive(), Ok(None));
}

#[test]
fn empty_channel_reports_no_frame() {
    let mut ch = FrameChannel::new();
    assert_eq!(ch.try_receive(), Ok(None));
}

#[test]
fn closed_channel_drains_then_disconnects() {
    let mut ch = FrameChannel::new();
    ch.send(vec![7, 7]);
    ch.close();
    assert_eq!(ch.try_receive(), Ok(Some(vec![7, 7])));
    assert_eq!(ch.try_receive(), Err(HarnessError::ChannelDisconnected));
}
