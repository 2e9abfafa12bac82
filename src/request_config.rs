//! Request configuration: the lines to request, the consumer label and the
//! size of the kernel's event buffer.

use vstd::prelude::*;
use vstd::slice::{slice_subrange, slice_to_vec};
use vstd::string::StringSliceAdditionalSpecFns;
use vstd::utf8::{decode_utf8, valid_utf8};

use crate::text::{field_bytes, field_text, text_of};
use crate::Error;

verus! {

/// The largest number of lines one request can hold.
pub const LINES_MAX: usize = 64;

/// The largest number of bytes of a consumer label that the kernel keeps.
pub const CONSUMER_MAX: usize = 31;

/// The bytes of `label` that a request keeps: at most `CONSUMER_MAX` of them,
/// and none from the first NUL on.
pub open spec fn consumer_field(label: Seq<u8>) -> Seq<u8> {
    field_text(
        label.take(
            if label.len() <= CONSUMER_MAX {
                label.len() as int
            } else {
                CONSUMER_MAX as int
            },
        ),
    )
}

/// Request configuration objects.
///
/// The mutators don't fail: values out of range are adjusted, offsets above
/// the limit of one request are dropped and a consumer label that is too long
/// is truncated.
#[derive(Debug)]
pub struct RequestConfig {
    offsets: Vec<u32>,
    consumer: Option<Vec<u8>>,
    event_buffer_size: u32,
}

impl RequestConfig {
    #[verifier::type_invariant]
    spec fn inv(self) -> bool {
        &&& self.offsets@.len() <= LINES_MAX
        &&& self.consumer matches Some(c) ==> c@.len() <= CONSUMER_MAX
    }

    /// The offsets of the lines to request.
    pub closed spec fn offsets_spec(self) -> Seq<u32> {
        self.offsets@
    }

    /// The consumer label's bytes, if one was set.
    pub closed spec fn consumer_spec(self) -> Option<Seq<u8>> {
        match self.consumer {
            Some(c) => Some(c@),
            None => None,
        }
    }

    /// The requested size of the kernel's event buffer; 0 for its default.
    pub closed spec fn event_buffer_size_spec(self) -> u32 {
        self.event_buffer_size
    }

    /// Create a new request config object: no offsets, no consumer, the
    /// kernel's default event buffer size.
    pub fn new() -> (r: Result<Self, Error>)
        ensures
            r matches Ok(c) && c.offsets_spec() == Seq::<u32>::empty() && c.consumer_spec()
                == Option::<Seq<u8>>::None && c.event_buffer_size_spec() == 0,
    {
        Ok(RequestConfig { offsets: Vec::new(), consumer: None, event_buffer_size: 0 })
    }

    /// Set the consumer name for the request.
    ///
    /// If the consumer string is too long, it is truncated to the maximum
    /// accepted length.
    pub fn set_consumer(&mut self, consumer: &str)
        ensures
            final(self).consumer_spec() == Some(consumer_field(consumer.spec_bytes())),
            final(self).offsets_spec() == old(self).offsets_spec(),
            final(self).event_buffer_size_spec() == old(self).event_buffer_size_spec(),
    {
        proof {
            use_type_invariant(&*self);
        }
        let bytes = consumer.as_bytes();
        let n = if bytes.len() <= CONSUMER_MAX {
            bytes.len()
        } else {
            CONSUMER_MAX
        };
        let kept = field_bytes(slice_subrange(bytes, 0, n));
        proof {
            assert(bytes@.subrange(0, n as int) =~= bytes@.take(n as int));
            crate::text::lemma_field_text_len(bytes@.take(n as int));
        }
        self.consumer = Some(kept);
    }

    /// Get the consumer name configured in the request config. Fails with
    /// `NotSet` if none was set, and with `InvalidString` if truncation cut a
    /// character in two.
    pub fn get_consumer(&self) -> (r: Result<String, Error>)
        ensures
            self.consumer_spec() == Option::<Seq<u8>>::None ==> r == Err::<String, Error>(
                Error::NotSet,
            ),
            self.consumer_spec() matches Some(c) ==> (valid_utf8(c) ==> (r matches Ok(s) && s@
                == decode_utf8(c))) && (!valid_utf8(c) ==> r == Err::<String, Error>(
                Error::InvalidString,
            )),
    {
        match &self.consumer {
            Some(c) => text_of(slice_to_vec(c.as_slice())),
            None => Err(Error::NotSet),
        }
    }

    /// The consumer label's bytes as the kernel is given them: empty if none
    /// was set.
    pub fn consumer_bytes(&self) -> (r: Vec<u8>)
        ensures
            r@ == (match self.consumer_spec() {
                Some(c) => c,
                None => Seq::<u8>::empty(),
            }),
            r@.len() <= CONSUMER_MAX,
    {
        proof {
            use_type_invariant(self);
        }
        match &self.consumer {
            Some(c) => slice_to_vec(c.as_slice()),
            None => Vec::new(),
        }
    }

    /// Set the offsets of the lines to be requested.
    ///
    /// If too many offsets were given, those above the limit accepted by the
    /// kernel (`LINES_MAX` lines) are silently dropped.
    pub fn set_offsets(&mut self, offsets: &[u32])
        ensures
            final(self).offsets_spec() == (if offsets@.len() <= LINES_MAX {
                offsets@
            } else {
                offsets@.take(LINES_MAX as int)
            }),
            final(self).consumer_spec() == old(self).consumer_spec(),
            final(self).event_buffer_size_spec() == old(self).event_buffer_size_spec(),
    {
        proof {
            use_type_invariant(&*self);
        }
        let n = if offsets.len() <= LINES_MAX {
            offsets.len()
        } else {
            LINES_MAX
        };
        let kept = slice_to_vec(slice_subrange(offsets, 0, n));
        proof {
            assert(offsets@.subrange(0, n as int) =~= offsets@.take(n as int));
            assert(offsets@.take(offsets@.len() as int) =~= offsets@);
        }
        self.offsets = kept;
    }

    /// Get the offsets of lines in the request config.
    pub fn get_offsets(&self) -> (r: Vec<u32>)
        ensures
            r@ == self.offsets_spec(),
            r@.len() <= LINES_MAX,
    {
        proof {
            use_type_invariant(self);
        }
        slice_to_vec(self.offsets.as_slice())
    }

    /// Set the size of the kernel event buffer for the request.
    ///
    /// The kernel may adjust the value if it's too high. If set to 0, the
    /// default value will be used.
    pub fn set_event_buffer_size(&mut self, size: u32)
        ensures
            final(self).event_buffer_size_spec() == size,
            final(self).offsets_spec() == old(self).offsets_spec(),
            final(self).consumer_spec() == old(self).consumer_spec(),
    {
        proof {
            use_type_invariant(&*self);
        }
        self.event_buffer_size = size;
    }

    /// Get the edge event buffer size for the request config.
    pub fn get_event_buffer_size(&self) -> (r: u32)
        ensures
            r == self.event_buffer_size_spec(),
    {
        self.event_buffer_size
    }
}

} // verus!
