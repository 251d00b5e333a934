//! Scene commands, which span several frames.

use crate::base64::{base64_bytes, base64_decode};
use crate::error::Error;
use crate::frame::{checksum, finish, frame, is_frame, law_finished_frame_is_valid};
use crate::laws::are_frames;
use crate::packet::GoveeBlePacket;
use crate::param::DecodePacketParam;
use vstd::prelude::*;
use vstd::slice::slice_to_vec;
use vstd::utf8::encode_utf8;

verus! {

/// The longest scene: its lines are counted in a byte.
pub const MAX_SCENE_BYTES: usize = 4332;

/// How many lines a scene of `len` bytes takes: the first holds fourteen of
/// them, every other one seventeen.
pub open spec fn scene_lines(len: nat) -> nat {
    if len <= 14 {
        1
    } else {
        (1 + (len - 14 + 16) / 17) as nat
    }
}

/// The line at position `i`, without padding and checksum. A line starts with
/// its number, the last one with 0xff; the first one goes on with a header that
/// counts the lines.
pub open spec fn scene_line(bytes: Seq<u8>, i: int) -> Seq<u8> {
    let lines = scene_lines(bytes.len());
    let number: u8 = if i == lines - 1 {
        0xff
    } else {
        i as u8
    };
    if i == 0 {
        let end = if bytes.len() < 14 { bytes.len() as int } else { 14 };
        seq![0xa3, number, 0x01, lines as u8, 0x02] + bytes.subrange(0, end)
    } else {
        let end = if bytes.len() < 14 + 17 * i { bytes.len() as int } else { 14 + 17 * i };
        seq![0xa3, number] + bytes.subrange(14 + 17 * (i - 1), end)
    }
}

/// The frames of the first `count` lines.
pub open spec fn scene_frames(bytes: Seq<u8>, count: nat) -> Seq<u8>
    decreases count,
{
    if count == 0 {
        Seq::empty()
    } else {
        scene_frames(bytes, (count - 1) as nat) + frame(scene_line(bytes, count - 1))
    }
}

/// The content of the frame that selects the scene.
pub open spec fn scene_code_line(code: u16) -> Seq<u8> {
    seq![0x33u8, 0x05, 0x04] + code.param_bytes()
}

/// The whole command: a frame for each line, then the one that selects the scene.
pub open spec fn scene_command(code: u16, bytes: Seq<u8>) -> Seq<u8> {
    scene_frames(bytes, scene_lines(bytes.len())) + frame(scene_code_line(code))
}

/// The byte at position `p` of the lines put one behind the other, before the
/// last line is marked and the lines are counted.
spec fn stream_byte(bytes: Seq<u8>, p: int) -> u8 {
    let i = p / 19;
    let j = p % 19;
    if j == 0 {
        0xa3
    } else if i == 0 {
        if j == 1 || j == 3 {
            0
        } else if j == 2 {
            1
        } else if j == 4 {
            2
        } else {
            bytes[j - 5]
        }
    } else if j == 1 {
        i as u8
    } else {
        bytes[14 + 17 * (i - 1) + (j - 2)]
    }
}

/// `lines` full lines, and one begun, hold the first `k` bytes of a scene.
spec fn lines_for(k: int, lines: int) -> bool {
    if lines == 0 {
        0 <= k <= 14
    } else {
        14 + 17 * (lines - 1) < k <= 14 + 17 * lines
    }
}

/// Puts the scene bytes in lines behind each other, with the last one marked
/// and all of them counted.
fn scene_stream(bytes: &[u8]) -> (r: (Vec<u8>, u8))
    requires
        bytes@.len() <= MAX_SCENE_BYTES,
    ensures
        r.1 == scene_lines(bytes@.len()),
        r.0@.len() == 5 + bytes@.len() + 2 * (r.1 - 1),
        lines_for(bytes@.len() as int, r.1 - 1),
        forall|p: int|
            #![trigger r.0@[p]]
            0 <= p < r.0@.len() ==> r.0@[p] == if p == 3 {
                r.1
            } else if p == 19 * (r.1 - 1) + 1 {
                0xff
            } else {
                stream_byte(bytes@, p)
            },
{
    let mut data: Vec<u8> = vec![0xa3, 0x00, 0x01, 0x00, 0x02];
    let mut num_lines: u8 = 0;
    let mut last_line_marker: usize = 1;
    let mut k: usize = 0;
    while k < bytes.len()
        invariant
            k <= bytes.len(),
            bytes@.len() <= MAX_SCENE_BYTES,
            num_lines <= 254,
            lines_for(k as int, num_lines as int),
            data@.len() == 5 + k + 2 * num_lines,
            last_line_marker == 19 * num_lines + 1,
            forall|p: int| #![trigger data@[p]] 0 <= p < data@.len() ==> data@[p] == stream_byte(bytes@, p),
        decreases bytes.len() - k,
    {
        if data.len() % 19 == 0 {
            num_lines = num_lines + 1;
            data.push(0xa3);
            last_line_marker = data.len();
            data.push(num_lines);
        }
        data.push(bytes[k]);
        k = k + 1;
    }
    data[last_line_marker] = 0xff;
    data[3] = num_lines + 1;
    (data, num_lines + 1)
}

/// Encodes the command that uploads the scene `bytes` and selects scene `code`.
pub fn encode_scene(code: u16, bytes: &[u8]) -> (r: Vec<u8>)
    requires
        bytes@.len() <= MAX_SCENE_BYTES,
    ensures
        r@ == scene_command(code, bytes@),
{
    let (data, lines) = scene_stream(bytes);
    let mut padded: Vec<u8> = Vec::new();
    let mut start: usize = 0;
    let ghost mut i: int = 0;
    while start < data.len()
        invariant
            bytes@.len() <= MAX_SCENE_BYTES,
            lines == scene_lines(bytes@.len()),
            lines_for(bytes@.len() as int, lines - 1),
            data@.len() == 5 + bytes@.len() + 2 * (lines - 1),
            forall|p: int|
                #![trigger data@[p]]
                0 <= p < data@.len() ==> data@[p] == if p == 3 {
                    lines
                } else if p == 19 * (lines - 1) + 1 {
                    0xff
                } else {
                    stream_byte(bytes@, p)
                },
            0 <= i <= lines,
            start == if i < lines { 19 * i } else { data@.len() as int },
            padded@ == scene_frames(bytes@, i as nat),
        decreases data.len() - start,
    {
        let end: usize = if data.len() - start < 19 { data.len() } else { start + 19 };
        let chunk = slice_to_vec(&data.as_slice()[start..end]);
        assert(chunk@ =~= scene_line(bytes@, i)) by {
            assert forall|q: int| 0 <= q < chunk@.len() implies chunk@[q] == scene_line(bytes@, i)[q] by {
                assert(chunk@[q] == data@[19 * i + q]);
                assert((19 * i + q) / 19 == i && (19 * i + q) % 19 == q);
            }
        }
        let mut padded_chunk = finish(chunk);
        padded.append(&mut padded_chunk);
        start = end;
        proof {
            i = i + 1;
        }
    }
    let mut last: Vec<u8> = vec![0x33, 0x05, 0x04];
    code.encode_param(&mut last);
    let mut last = finish(last);
    padded.append(&mut last);
    padded
}

/// Uploads a scene to a light and selects it.
#[derive(Clone, Default, Debug, PartialEq, Eq)]
pub struct SetSceneCode {
    code: u16,
    scence_param: String,
}

/// The command for scene `code` with the parameter text `param`.
pub open spec fn scene_encoding(code: u16, param: Seq<char>) -> Result<Seq<u8>, Error> {
    match base64_bytes(param) {
        Ok(bytes) => Ok(scene_command(code, bytes)),
        Err(e) => Err(Error::Base64(e)),
    }
}

/// Whether the parameter text can be decoded on this machine and, if it is
/// base64, its lines can be counted in a byte.
pub open spec fn scene_fits(param: Seq<char>) -> bool {
    &&& encode_utf8(param).len() <= usize::MAX / 8
    &&& base64_bytes(param) is Ok ==> base64_bytes(param)->Ok_0.len() <= MAX_SCENE_BYTES
}

impl SetSceneCode {
    /// The number of the scene.
    pub closed spec fn spec_code(&self) -> u16 {
        self.code
    }

    /// The base64 text that describes the scene.
    pub closed spec fn spec_param(&self) -> Seq<char> {
        self.scence_param@
    }

    /// The scene `code`, described by the base64 text `scence_param`.
    pub fn new(code: u16, scence_param: String) -> (r: Self)
        ensures
            r.spec_code() == code,
            r.spec_param() == scence_param@,
    {
        SetSceneCode { code, scence_param }
    }

    /// Whether the scene is short enough for [`SetSceneCode::encode`].
    pub fn fits(&self) -> (r: bool)
        ensures
            r == scene_fits(self.spec_param()),
    {
        if self.scence_param.as_str().as_bytes().len() > usize::MAX / 8 {
            return false;
        }
        match base64_decode(self.scence_param.as_str()) {
            Ok(bytes) => bytes.len() <= MAX_SCENE_BYTES,
            Err(_) => true,
        }
    }

    /// Encodes the command.
    pub fn encode(&self) -> (r: Result<Vec<u8>, Error>)
        requires
            scene_fits(self.spec_param()),
        ensures
            match scene_encoding(self.spec_code(), self.spec_param()) {
                Ok(bytes) => r is Ok && r->Ok_0@ == bytes,
                Err(e) => r == Err::<Vec<u8>, Error>(e),
            },
    {
        match base64_decode(self.scence_param.as_str()) {
            Ok(bytes) => Ok(encode_scene(self.code, bytes.as_slice())),
            Err(e) => Err(Error::Base64(e)),
        }
    }

    /// Scene commands are only sent: no packet is understood as one.
    pub fn decode(_data: &[u8]) -> (r: Result<GoveeBlePacket, Error>)
        ensures
            r == Err::<GoveeBlePacket, Error>(Error::SceneDecodeNotImplemented),
    {
        Err(Error::SceneDecodeNotImplemented)
    }

    /// Encodes the command, or returns `None` where the scene is too long for it.
    pub fn try_encode(&self) -> (r: Option<Result<Vec<u8>, Error>>)
        ensures
            r is Some <==> scene_fits(self.spec_param()),
            r is Some ==> match scene_encoding(self.spec_code(), self.spec_param()) {
                Ok(bytes) => r->Some_0 is Ok && r->Some_0->Ok_0@ == bytes,
                Err(e) => r->Some_0 == Err::<Vec<u8>, Error>(e),
            },
    {
        if self.fits() {
            Some(self.encode())
        } else {
            None
        }
    }
}

/// A line fills at most one frame, and starts within the scene.
proof fn lemma_line_fits(bytes: Seq<u8>, i: int)
    requires
        0 <= i < scene_lines(bytes.len()),
    ensures
        scene_line(bytes, i).len() <= 19,
        i > 0 ==> 14 + 17 * (i - 1) < bytes.len(),
{
}

/// The frames of the first `count` lines are valid frames.
proof fn lemma_scene_frames(bytes: Seq<u8>, count: nat, i: int)
    requires
        count <= scene_lines(bytes.len()),
    ensures
        scene_frames(bytes, count).len() == 20 * count,
        0 <= i < count ==> scene_frames(bytes, count).subrange(20 * i, 20 * i + 20) == frame(
            scene_line(bytes, i),
        ),
    decreases count,
{
    if count > 0 {
        lemma_scene_frames(bytes, (count - 1) as nat, i);
        let before = scene_frames(bytes, (count - 1) as nat);
        let all = scene_frames(bytes, count);
        if i == count - 1 {
            assert(all.subrange(20 * i, 20 * i + 20) =~= frame(scene_line(bytes, i)));
        } else if 0 <= i < count - 1 {
            assert(all.subrange(20 * i, 20 * i + 20) =~= before.subrange(20 * i, 20 * i + 20));
        }
    }
}

/// A scene command is one valid frame for each line and one that selects the
/// scene, in this order.
pub proof fn law_scene_command_is_frames(code: u16, bytes: Seq<u8>)
    ensures
        scene_command(code, bytes).len() == 20 * (scene_lines(bytes.len()) + 1),
        are_frames(scene_command(code, bytes)),
        forall|i: int|
            0 <= i < scene_lines(bytes.len()) ==> #[trigger] scene_command(code, bytes).subrange(
                20 * i,
                20 * i + 20,
            ) == frame(scene_line(bytes, i)),
        scene_command(code, bytes).skip(20 * scene_lines(bytes.len()) as int) == frame(
            scene_code_line(code),
        ),
{
    let lines = scene_lines(bytes.len()) as int;
    let command = scene_command(code, bytes);
    let frames = scene_frames(bytes, lines as nat);
    lemma_scene_frames(bytes, lines as nat, 0);
    assert(command.skip(20 * lines) =~= frame(scene_code_line(code)));
    assert forall|i: int| 0 <= i < lines implies #[trigger] command.subrange(20 * i, 20 * i + 20)
        == frame(scene_line(bytes, i)) by {
        lemma_scene_frames(bytes, lines as nat, i);
        assert(command.subrange(20 * i, 20 * i + 20) =~= frames.subrange(20 * i, 20 * i + 20));
    }
    assert forall|i: int|
        #![trigger command.subrange(20 * i, 20 * i + 20)]
        0 <= i < command.len() / 20 implies is_frame(command.subrange(20 * i, 20 * i + 20)) by {
        if i < lines {
            lemma_line_fits(bytes, i);
            law_finished_frame_is_valid(scene_line(bytes, i));
        } else {
            assert(command.subrange(20 * i, 20 * i + 20) =~= command.skip(20 * lines));
            law_finished_frame_is_valid(scene_code_line(code));
        }
    }
}

/// The scene bytes in the first `count` lines, put together again.
pub open spec fn carried(bytes: Seq<u8>, count: nat) -> Seq<u8>
    decreases count,
{
    if count == 0 {
        Seq::empty()
    } else {
        carried(bytes, (count - 1) as nat) + scene_line(bytes, count - 1).skip(
            if count == 1 {
                5
            } else {
                2
            },
        )
    }
}

/// The first lines carry the first bytes.
proof fn lemma_carried(bytes: Seq<u8>, count: nat)
    requires
        1 <= count <= scene_lines(bytes.len()),
    ensures
        carried(bytes, count) == bytes.take(
            if bytes.len() < 14 + 17 * (count - 1) {
                bytes.len() as int
            } else {
                14 + 17 * (count - 1)
            },
        ),
    decreases count,
{
    let end = if bytes.len() < 14 + 17 * (count - 1) {
        bytes.len() as int
    } else {
        14 + 17 * (count - 1)
    };
    if count > 1 {
        lemma_carried(bytes, (count - 1) as nat);
        lemma_line_fits(bytes, count - 1);
    } else {
        assert(carried(bytes, 0) =~= Seq::<u8>::empty());
    }
    assert(carried(bytes, count) =~= bytes.take(end));
}

/// The lines carry every byte of the scene, in order and nothing else.
pub proof fn law_scene_lines_make_up_bytes(bytes: Seq<u8>)
    ensures
        carried(bytes, scene_lines(bytes.len())) == bytes,
{
    lemma_carried(bytes, scene_lines(bytes.len()));
    assert(bytes.take(bytes.len() as int) =~= bytes);
}

/// A scene that is short enough counts its lines in a byte: the header of the
/// first line says how many there are, only the last one is marked with 0xff,
/// and every other one carries its own number.
pub proof fn law_scene_lines_are_numbered(bytes: Seq<u8>, i: int)
    requires
        bytes.len() <= MAX_SCENE_BYTES,
        0 <= i < scene_lines(bytes.len()),
    ensures
        scene_lines(bytes.len()) <= 255,
        scene_line(bytes, 0)[3] == scene_lines(bytes.len()),
        i == scene_lines(bytes.len()) - 1 ==> scene_line(bytes, i)[1] == 0xff,
        i < scene_lines(bytes.len()) - 1 ==> scene_line(bytes, i)[1] == i && i < 0xff,
{
}

/// A scene is short enough exactly if its lines can be counted in a byte.
pub proof fn law_longest_scene(len: nat)
    ensures
        scene_lines(len) <= 255 <==> len <= MAX_SCENE_BYTES,
{
}

/// The last frame of a command selects the scene: it says the code, low byte
/// first, and commands for different scenes are different.
pub proof fn law_command_selects_scene(code: u16, other: u16, bytes: Seq<u8>)
    ensures
        ({
            let command = scene_command(code, bytes);
            let last = command.len() - 20;
            &&& last >= 20
            &&& command[last] == 0x33
            &&& command[last + 1] == 0x05
            &&& command[last + 2] == 0x04
            &&& command[last + 3] + 256 * command[last + 4] == code
            &&& forall|j: int| 5 <= j < 19 ==> #[trigger] command[last + j] == 0
            &&& command[last + 19] == checksum(command.subrange(last, last + 19))
        }),
        scene_command(code, bytes) == scene_command(other, bytes) ==> code == other,
{
    lemma_selecting_frame(code, bytes);
    lemma_selecting_frame(other, bytes);
}

/// The last frame of a command.
proof fn lemma_selecting_frame(code: u16, bytes: Seq<u8>)
    ensures
        ({
            let command = scene_command(code, bytes);
            let last = command.len() - 20;
            &&& last >= 20
            &&& command[last] == 0x33
            &&& command[last + 1] == 0x05
            &&& command[last + 2] == 0x04
            &&& command[last + 3] + 256 * command[last + 4] == code
            &&& forall|j: int| 5 <= j < 19 ==> #[trigger] command[last + j] == 0
            &&& command[last + 19] == checksum(command.subrange(last, last + 19))
        }),
{
    law_scene_command_is_frames(code, bytes);
    let command = scene_command(code, bytes);
    let last = command.len() - 20;
    let select = frame(scene_code_line(code));
    assert(command.skip(last) == select);
    assert forall|j: int| 0 <= j < 20 implies #[trigger] command[last + j] == select[j] by {
        assert(command.skip(last)[j] == command[last + j]);
    }
    assert(command[last + 0] == select[0]);
    assert(command[last + 1] == select[1]);
    assert(command[last + 2] == select[2]);
    assert(command[last + 3] == select[3]);
    assert(command[last + 4] == select[4]);
    law_finished_frame_is_valid(scene_code_line(code));
    assert(select.take(19) =~= command.subrange(last, last + 19));
}

/// A command has a frame for each line and one more. There are just as many
/// lines as the scene needs, fourteen bytes in the first and seventeen in every
/// other one.
pub proof fn law_length_of_command(code: u16, bytes: Seq<u8>, lines: int)
    requires
        scene_command(code, bytes).len() == 20 * (lines + 1),
    ensures
        lines >= 1,
        bytes.len() <= 14 + 17 * (lines - 1),
        lines > 1 ==> bytes.len() > 14 + 17 * (lines - 2),
        scene_command(code, bytes).len() % 20 == 0,
{
    law_scene_command_is_frames(code, bytes);
}

/// Each line starts with 0xa3 and its number, the last one with 0xff in place of
/// the number. The first goes on with 1, the number of lines and 2. Every line
/// ends in the checksum of its bytes.
pub proof fn law_heads_of_lines(code: u16, bytes: Seq<u8>, lines: int, i: int)
    requires
        bytes.len() <= 4332,
        scene_command(code, bytes).len() == 20 * (lines + 1),
        0 <= i < lines,
    ensures
        ({
            let command = scene_command(code, bytes);
            &&& command[20 * i] == 0xa3
            &&& i < lines - 1 ==> command[20 * i + 1] == i
            &&& i == lines - 1 ==> command[20 * i + 1] == 0xff
            &&& command[2] == 1
            &&& command[3] == lines
            &&& command[4] == 2
            &&& command[20 * i + 19] == checksum(command.subrange(20 * i, 20 * i + 19))
        }),
{
    law_scene_command_is_frames(code, bytes);
    let command = scene_command(code, bytes);
    lemma_line_in_command(code, bytes, 0);
    lemma_line_in_command(code, bytes, i);
    assert(command[20 * 0int + 2] == frame(scene_line(bytes, 0))[2]);
    assert(command[20 * 0int + 3] == frame(scene_line(bytes, 0))[3]);
    assert(command[20 * 0int + 4] == frame(scene_line(bytes, 0))[4]);
    assert(command[20 * i + 0] == frame(scene_line(bytes, i))[0]);
    assert(command[20 * i + 1] == frame(scene_line(bytes, i))[1]);
    assert(command[20 * i + 19] == frame(scene_line(bytes, i))[19]);
    lemma_line_fits(bytes, i);
    law_finished_frame_is_valid(scene_line(bytes, i));
    let line = frame(scene_line(bytes, i));
    assert forall|j: int| 0 <= j < 19 implies #[trigger] command.subrange(20 * i, 20 * i + 19)[j]
        == line[j] by {
        assert(command[20 * i + j] == line[j]);
    }
    assert(line.take(19) =~= command.subrange(20 * i, 20 * i + 19));
}

/// The bytes of a command are those of its lines.
proof fn lemma_line_in_command(code: u16, bytes: Seq<u8>, i: int)
    requires
        0 <= i < scene_lines(bytes.len()),
    ensures
        forall|j: int|
            0 <= j < 20 ==> #[trigger] scene_command(code, bytes)[20 * i + j] == frame(
                scene_line(bytes, i),
            )[j],
{
    law_scene_command_is_frames(code, bytes);
    let command = scene_command(code, bytes);
    let line = command.subrange(20 * i, 20 * i + 20);
    assert(line == frame(scene_line(bytes, i)));
    assert forall|j: int| 0 <= j < 20 implies #[trigger] command[20 * i + j] == frame(
        scene_line(bytes, i),
    )[j] by {
        assert(line[j] == command[20 * i + j]);
    }
}

/// The bytes of the scene follow each other behind the heads of the lines: byte
/// `k` stands in the first line behind five bytes, or in a later one behind two.
pub proof fn law_place_of_scene_byte(code: u16, bytes: Seq<u8>, k: int)
    requires
        0 <= k < bytes.len(),
    ensures
        k < 14 ==> scene_command(code, bytes)[5 + k] == bytes[k],
        k >= 14 ==> scene_command(code, bytes)[20 * (1 + (k - 14) / 17) + 2 + (k - 14) % 17]
            == bytes[k],
{
    law_scene_command_is_frames(code, bytes);
    let command = scene_command(code, bytes);
    if k < 14 {
        lemma_line_in_command(code, bytes, 0);
        assert(command[20 * 0int + (5 + k)] == frame(scene_line(bytes, 0))[5 + k]);
    } else {
        let i = 1 + (k - 14) / 17;
        let j = 2 + (k - 14) % 17;
        assert(17 * ((k - 14) / 17) + (k - 14) % 17 == k - 14);
        assert(i < scene_lines(bytes.len()));
        lemma_line_in_command(code, bytes, i);
        assert(command[20 * i + j] == frame(scene_line(bytes, i))[j]);
    }
}

/// Behind the last byte of the scene its line is filled with zeros.
pub proof fn law_end_of_scene_is_zeros(code: u16, bytes: Seq<u8>, lines: int, j: int)
    requires
        scene_command(code, bytes).len() == 20 * (lines + 1),
        j < 19,
        lines == 1 ==> j >= 5 + bytes.len(),
        lines > 1 ==> j >= 2 + (bytes.len() - (14 + 17 * (lines - 2))),
    ensures
        scene_command(code, bytes)[20 * (lines - 1) + j] == 0,
{
    law_scene_command_is_frames(code, bytes);
    law_length_of_command(code, bytes, lines);
    lemma_line_in_command(code, bytes, lines - 1);
    let command = scene_command(code, bytes);
    assert(command[20 * (lines - 1) + j] == frame(scene_line(bytes, lines - 1))[j]);
}

/// A scene is sent as the command for the bytes that its text stands for, and a
/// text that stands for none is refused with what is wrong with it.
pub proof fn law_scene_text_is_decoded(code: u16, param: Seq<char>)
    ensures
        base64_bytes(param) is Ok <==> scene_encoding(code, param) is Ok,
        base64_bytes(param) is Ok ==> scene_encoding(code, param)->Ok_0 == scene_command(
            code,
            base64_bytes(param)->Ok_0,
        ),
        base64_bytes(param) is Err ==> scene_encoding(code, param)->Err_0 == Error::Base64(
            base64_bytes(param)->Err_0,
        ),
{
}

/// A scene of at most 4332 bytes fits, as does a text that is not base64, as long
/// as the text is one that can be decoded on this machine.
pub proof fn law_scenes_that_fit(param: Seq<char>)
    requires
        encode_utf8(param).len() <= usize::MAX / 8,
    ensures
        scene_fits(param) <==> (base64_bytes(param) is Err || base64_bytes(param)->Ok_0.len()
            <= 4332),
{
}

} // verus!
