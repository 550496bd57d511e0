//! Lines for the log of the foreign side.
use vstd::prelude::*;
use vstd::string::StringSliceAdditionalSpecFns;

verus! {

/// A log line: `+ ` (so that the foreign log colours nothing), the message,
/// and a newline.
pub open spec fn log_line_bytes(msg: Seq<u8>) -> Seq<u8> {
    seq![0x2bu8, 0x20u8] + msg + seq![0x0au8]
}

/// Frames a message as one line of the foreign log.
pub fn log_line(msg: &str) -> (r: Vec<u8>)
    requires
        msg.spec_bytes().len() + 3 <= usize::MAX,
    ensures
        r@ == log_line_bytes(msg.spec_bytes()),
{
    let bytes = msg.as_bytes();
    let mut line: Vec<u8> = Vec::new();
    line.push(0x2b);
    line.push(0x20);
    let mut i: usize = 0;
    while i < bytes.len()
        invariant
            i <= bytes@.len(),
            line@ == seq![0x2bu8, 0x20u8] + bytes@.take(i as int),
        decreases bytes@.len() - i,
    {
        line.push(bytes[i]);
        i = i + 1;
        assert(line@ =~= seq![0x2bu8, 0x20u8] + bytes@.take(i as int));
    }
    line.push(0x0a);
    assert(bytes@.take(i as int) =~= bytes@);
    assert(line@ =~= log_line_bytes(msg.spec_bytes()));
    line
}

} // verus!
