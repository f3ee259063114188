use vstd::prelude::*;
use vstd::utf8::{decode_utf8, valid_utf8};
use crate::error::{Error, Result};
use crate::text::{from_boundary, inbound, outbound, to_boundary};

verus! {

/// The mathematical value of a message: whether it still owns its frames,
/// and the frames it holds, oldest first, as the bytes the engine carries.
pub ghost struct MessageView {
    pub live: bool,
    pub frames: Seq<Seq<u8>>,
}

impl MessageView {
    /// The value after the message has been released, or after its frames
    /// have been handed to a send: it owns nothing and holds no frames.
    pub open spec fn released(self) -> MessageView {
        MessageView { live: false, frames: Seq::empty() }
    }
}

/// The bytes the engine receives for each text, in order, or the error of the
/// first text that cannot cross the boundary.
pub open spec fn outbound_all(texts: Seq<Seq<char>>) -> Result<Seq<Seq<u8>>>
    decreases texts.len(),
{
    if texts.len() == 0 {
        Ok(Seq::empty())
    } else {
        match outbound_all(texts.drop_last()) {
            Err(e) => Err(e),
            Ok(prefix) => match outbound(texts.last()) {
                Err(e) => Err(e),
                Ok(b) => Ok(prefix.push(b)),
            },
        }
    }
}

/// The byte contents of a list of frames.
pub open spec fn frames_of(v: Seq<Vec<u8>>) -> Seq<Seq<u8>> {
    v.map_values(|f: Vec<u8>| f@)
}

/// The views of a list of borrowed texts.
pub open spec fn texts_of(v: Seq<&str>) -> Seq<Seq<char>> {
    v.map_values(|s: &str| s@)
}

/// An ordered sequence of text frames with transferable ownership.
///
/// A message is live from creation until it is destroyed or its frames are
/// transferred into a send; after that it owns nothing, holds no frames, and
/// releasing it again changes nothing.
pub struct Message {
    /// The frames while the message is live; `None` once released.
    frames: Option<Vec<Vec<u8>>>,
}

impl View for Message {
    type V = MessageView;

    closed spec fn view(&self) -> MessageView {
        match self.frames {
            Some(v) => MessageView { live: true, frames: frames_of(v@) },
            None => MessageView { live: false, frames: Seq::empty() },
        }
    }
}

impl Message {
    /// A new, empty, live message.
    pub fn new() -> (m: Message)
        ensures
            m@.live,
            m@.frames.len() == 0,
    {
        let m = Message { frames: Some(Vec::new()) };
        assert(m@.frames =~= Seq::<Seq<u8>>::empty());
        m
    }

    /// A live message that holds the frames received from the engine, as they
    /// came, oldest first. They are validated as text when popped.
    pub fn from_received(frames: Vec<Vec<u8>>) -> (m: Message)
        ensures
            m@.live,
            m@.frames == frames_of(frames@),
    {
        Message { frames: Some(frames) }
    }

    /// A live message holding `frames` in order. The first frame that cannot
    /// cross the boundary fails the whole construction.
    pub fn from_frames(frames: Vec<&str>) -> (r: Result<Message>)
        ensures
            match r {
                Ok(m) => m@.live && outbound_all(texts_of(frames@)) == Ok::<Seq<Seq<u8>>, Error>(
                    m@.frames,
                ),
                Err(e) => outbound_all(texts_of(frames@)) == Err::<Seq<Seq<u8>>, Error>(e),
            },
    {
        let mut msg = Message::new();
        let mut i: usize = 0;
        assert(texts_of(frames@).take(0) =~= Seq::<Seq<char>>::empty());
        assert(msg@.frames =~= Seq::<Seq<u8>>::empty());
        while i < frames.len()
            invariant
                i <= frames@.len(),
                msg@.live,
                outbound_all(texts_of(frames@).take(i as int)) == Ok::<Seq<Seq<u8>>, Error>(
                    msg@.frames,
                ),
            decreases frames.len() - i,
        {
            let ghost texts = texts_of(frames@);
            assert(texts.take(i + 1).drop_last() == texts.take(i as int));
            assert(texts.take(i + 1).last() == frames@[i as int]@);
            match msg.push(frames[i]) {
                Ok(()) => {},
                Err(e) => {
                    assert(outbound_all(texts.take(i + 1)) == Err::<Seq<Seq<u8>>, Error>(e));
                    proof {
                        lemma_outbound_all_err_extends(texts, i + 1);
                    }
                    return Err(e);
                },
            }
            i = i + 1;
        }
        assert(texts_of(frames@).take(i as int) == texts_of(frames@));
        Ok(msg)
    }

    /// Releases the frames and the ownership. Releasing twice is the same as
    /// releasing once.
    pub fn destroy(&mut self)
        ensures
            final(self)@ == old(self)@.released(),
    {
        self.frames = None;
    }

    /// Hands the frames over to a send, leaving this message released. A
    /// message that was already released hands over nothing.
    pub(crate) fn transfer(&mut self) -> (r: Option<Vec<Vec<u8>>>)
        ensures
            final(self)@ == old(self)@.released(),
            match r {
                Some(f) => old(self)@.live && frames_of(f@) == old(self)@.frames,
                None => !old(self)@.live,
            },
    {
        self.frames.take()
    }

    /// Whether the message still owns its frames.
    pub fn is_live(&self) -> (r: bool)
        ensures
            r == self@.live,
    {
        self.frames.is_some()
    }

    /// The number of frames held.
    pub fn size(&self) -> (r: usize)
        ensures
            r == self@.frames.len(),
            !self@.live ==> r == 0,
    {
        match &self.frames {
            Some(v) => v.len(),
            None => 0,
        }
    }

    /// Appends one frame, after checking that it can cross the boundary.
    pub fn push(&mut self, frame: &str) -> (r: Result<()>)
        requires
            old(self)@.live,
        ensures
            match outbound(frame@) {
                Ok(b) => r == Ok::<(), Error>(()) && final(self)@ == MessageView {
                    live: true,
                    frames: old(self)@.frames.push(b),
                },
                Err(e) => r == Err::<(), Error>(e) && final(self)@ == old(self)@,
            },
    {
        let b = to_boundary(frame)?;
        let mut v = self.frames.take().unwrap();
        v.push(b);
        assert(frames_of(v@) =~= old(self)@.frames.push(b@));
        self.frames = Some(v);
        Ok(())
    }

    /// Removes the oldest frame and returns its text.
    pub fn pop(&mut self) -> (r: Result<String>)
        requires
            old(self)@.frames.len() > 0,
        ensures
            final(self)@ == (MessageView {
                live: old(self)@.live,
                frames: old(self)@.frames.drop_first(),
            }),
            match r {
                Ok(s) => inbound(old(self)@.frames[0]) == Ok::<Seq<char>, Error>(s@),
                Err(e) => inbound(old(self)@.frames[0]) == Err::<Seq<char>, Error>(e),
            },
    {
        let mut v = self.frames.take().unwrap();
        let b = v.remove(0);
        assert(frames_of(v@) =~= old(self)@.frames.drop_first());
        self.frames = Some(v);
        from_boundary(b.as_slice())
    }

    /// Pops every frame held when the call begins, oldest first, and returns
    /// their texts in that order. The first frame that is not text stops the
    /// drain: it and the frames before it are gone, the rest stay.
    pub fn collect(&mut self) -> (r: Result<Vec<String>>)
        ensures
            final(self)@.live == old(self)@.live,
            match r {
                Ok(v) => {
                    &&& final(self)@.frames.len() == 0
                    &&& v@.len() == old(self)@.frames.len()
                    &&& forall|i: int|
                        0 <= i < v@.len() ==> valid_utf8(#[trigger] old(self)@.frames[i])
                            && v@[i]@ == decode_utf8(old(self)@.frames[i])
                },
                Err(e) => exists|k: int|
                    0 <= k < old(self)@.frames.len() && first_invalid(old(self)@.frames, k)
                        && e == Error::FromCStr && final(self)@.frames
                        == old(self)@.frames.skip(k + 1),
            },
    {
        let n = self.size();
        let mut out: Vec<String> = Vec::with_capacity(n);
        let mut i: usize = 0;
        while i < n
            invariant
                n == old(self)@.frames.len(),
                i <= n,
                self@.live == old(self)@.live,
                self@.frames == old(self)@.frames.skip(i as int),
                out@.len() == i,
                forall|j: int|
                    0 <= j < i ==> valid_utf8(#[trigger] old(self)@.frames[j]) && out@[j]@
                        == decode_utf8(old(self)@.frames[j]),
            decreases n - i,
        {
            assert(self@.frames[0] == old(self)@.frames[i as int]);
            let s = self.pop();
            assert(old(self)@.frames.skip(i as int).drop_first() == old(self)@.frames.skip(
                i + 1,
            ));
            match s {
                Ok(s) => {
                    out.push(s);
                },
                Err(e) => {
                    assert(first_invalid(old(self)@.frames, i as int));
                    return Err(e);
                },
            }
            i = i + 1;
        }
        Ok(out)
    }
}

/// A message that is not live holds no frames.
pub proof fn lemma_released_holds_nothing(m: &Message)
    ensures
        !m@.live ==> m@.frames.len() == 0,
{
}

/// Releasing a message again, whether it was destroyed before or its frames
/// were transferred into a send, changes nothing.
pub proof fn lemma_release_idempotent(m: MessageView)
    ensures
        m.released().released() == m.released(),
        !m.released().live,
        m.released().frames.len() == 0,
{
}

/// Pushing a text onto an empty message and popping at once gives the same
/// text back and leaves the message empty.
pub proof fn lemma_push_then_pop(m: MessageView, s: Seq<char>)
    requires
        m.live,
        m.frames.len() == 0,
        outbound(s) is Ok,
    ensures
        ({
            let pushed = m.frames.push(outbound(s)->Ok_0);
            &&& pushed.len() == 1
            &&& inbound(pushed[0]) == Ok::<Seq<char>, Error>(s)
            &&& pushed.drop_first().len() == 0
        }),
{
    crate::text::lemma_round_trip(s);
}

/// The frames built from a list of texts are, in order, well-formed text
/// that decodes to those very texts: draining them gives the list back.
pub proof fn lemma_from_frames_collect(texts: Seq<Seq<char>>)
    requires
        outbound_all(texts) is Ok,
    ensures
        ({
            let frames = outbound_all(texts)->Ok_0;
            &&& frames.len() == texts.len()
            &&& forall|i: int|
                0 <= i < frames.len() ==> valid_utf8(#[trigger] frames[i]) && decode_utf8(frames[i])
                    == texts[i]
        }),
    decreases texts.len(),
{
    if texts.len() > 0 {
        let prefix = texts.drop_last();
        lemma_from_frames_collect(prefix);
        crate::text::lemma_round_trip(texts.last());
        let frames = outbound_all(texts)->Ok_0;
        let pf = outbound_all(prefix)->Ok_0;
        assert forall|i: int| 0 <= i < frames.len() implies valid_utf8(#[trigger] frames[i])
            && decode_utf8(frames[i]) == texts[i] by {
            if i < pf.len() {
                assert(frames[i] == pf[i]);
                assert(texts[i] == prefix[i]);
            }
        }
    }
}

/// `k` is the first frame of `frames` that is not well-formed text.
pub open spec fn first_invalid(frames: Seq<Seq<u8>>, k: int) -> bool {
    &&& !valid_utf8(frames[k])
    &&& forall|j: int| 0 <= j < k ==> valid_utf8(#[trigger] frames[j])
}

/// Once a prefix of the texts fails to cross the boundary, so does the whole
/// list, with the same error.
proof fn lemma_outbound_all_err_extends(texts: Seq<Seq<char>>, n: int)
    requires
        0 <= n <= texts.len(),
        outbound_all(texts.take(n)) is Err,
    ensures
        outbound_all(texts) == outbound_all(texts.take(n)),
    decreases texts.len() - n,
{
    if n < texts.len() {
        assert(texts.take(n + 1).drop_last() == texts.take(n));
        lemma_outbound_all_err_extends(texts, n + 1);
    } else {
        assert(texts.take(n) == texts);
    }
}

} // verus!
