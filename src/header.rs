//! The 10-byte DCP header: ServiceID, ServiceType, XID, ResponseDelayFactor
//! and DataLength, big-endian.

use crate::bytes::{
    be16_at, be32_at, lemma_splice_twice, put_u8, read_u16, read_u32, splice, u16_bytes,
    u32_bytes, write_u16, write_u32,
};
use crate::error::ParseDcpHeaderError;
use vstd::prelude::*;

verus! {

/// Length of the DCP header.
pub const DCP_HEADER_LENGTH_FIELD: usize = 10;

/// Whether a header is a request or which kind of answer it is.
#[derive(Debug, Clone, Copy, PartialEq, Eq, Structural)]
pub enum ServiceType {
    Request,
    Success,
    NotSupported,
}

/// The DCP service a frame belongs to.
#[derive(Debug, Clone, Copy, PartialEq, Eq, Structural)]
pub enum ServiceId {
    Get,
    /// The Set service: assigns a station name or IP parameters.
    Assign,
    Identify,
    Hello,
}

impl ServiceType {
    /// The variant that stands for wire value `v`, if any.
    pub open spec fn spec_from(v: u8) -> Option<Self> {
        if v == 0 {
            Some(ServiceType::Request)
        } else if v == 1 {
            Some(ServiceType::Success)
        } else if v == 5 {
            Some(ServiceType::NotSupported)
        } else {
            None
        }
    }

    /// The wire value of the variant.
    pub open spec fn spec_value(self) -> u8 {
        match self {
            ServiceType::Request => 0,
            ServiceType::Success => 1,
            ServiceType::NotSupported => 5,
        }
    }

    /// Decodes a wire value; `None` when no variant has it.
    pub fn from_u8(v: u8) -> (r: Option<Self>)
        ensures
            r == Self::spec_from(v),
    {
        if v == 0 {
            Some(ServiceType::Request)
        } else if v == 1 {
            Some(ServiceType::Success)
        } else if v == 5 {
            Some(ServiceType::NotSupported)
        } else {
            None
        }
    }

    /// The wire value of the variant; it decodes back to the variant.
    pub fn as_u8(&self) -> (r: u8)
        ensures
            r == self.spec_value(),
            Self::spec_from(r) == Some(*self),
    {
        match self {
            ServiceType::Request => 0,
            ServiceType::Success => 1,
            ServiceType::NotSupported => 5,
        }
    }
}

impl ServiceId {
    /// The variant that stands for wire value `v`, if any.
    pub open spec fn spec_from(v: u8) -> Option<Self> {
        if v == 3 {
            Some(ServiceId::Get)
        } else if v == 4 {
            Some(ServiceId::Assign)
        } else if v == 5 {
            Some(ServiceId::Identify)
        } else if v == 6 {
            Some(ServiceId::Hello)
        } else {
            None
        }
    }

    /// The wire value of the variant.
    pub open spec fn spec_value(self) -> u8 {
        match self {
            ServiceId::Get => 3,
            ServiceId::Assign => 4,
            ServiceId::Identify => 5,
            ServiceId::Hello => 6,
        }
    }

    /// Decodes a wire value; `None` when no variant has it.
    pub fn from_u8(v: u8) -> (r: Option<Self>)
        ensures
            r == Self::spec_from(v),
    {
        if v == 3 {
            Some(ServiceId::Get)
        } else if v == 4 {
            Some(ServiceId::Assign)
        } else if v == 5 {
            Some(ServiceId::Identify)
        } else if v == 6 {
            Some(ServiceId::Hello)
        } else {
            None
        }
    }

    /// The wire value of the variant; it decodes back to the variant.
    pub fn as_u8(&self) -> (r: u8)
        ensures
            r == self.spec_value(),
            Self::spec_from(r) == Some(*self),
    {
        match self {
            ServiceId::Get => 3,
            ServiceId::Assign => 4,
            ServiceId::Identify => 5,
            ServiceId::Hello => 6,
        }
    }
}

/// A parsed or built DCP header.
#[derive(Debug, Clone, Copy, PartialEq, Eq, Structural)]
pub struct DcpHeader {
    pub service_id: ServiceId,
    pub service_type: ServiceType,
    pub x_id: u32,
    pub response_delay_factor: u16,
    pub data_length: u16,
}

/// What parsing a DCP payload `s` gives for its header.
pub open spec fn spec_parse_header(s: Seq<u8>) -> Result<DcpHeader, ParseDcpHeaderError> {
    if s.len() < DCP_HEADER_LENGTH_FIELD {
        Err(ParseDcpHeaderError::InvalidHeaderLength)
    } else {
        match ServiceId::spec_from(s[0]) {
            None => Err(ParseDcpHeaderError::InvalidServiceID),
            Some(service_id) => match ServiceType::spec_from(s[1]) {
                None => Err(ParseDcpHeaderError::InvalidServiceType),
                Some(service_type) => Ok(
                    DcpHeader {
                        service_id,
                        service_type,
                        x_id: be32_at(s, 2),
                        response_delay_factor: be16_at(s, 6),
                        data_length: be16_at(s, 8),
                    },
                ),
            },
        }
    }
}

/// The ten bytes written for header `h`; the response delay factor is written as 0.
pub open spec fn header_bytes(h: DcpHeader) -> Seq<u8> {
    seq![h.service_id.spec_value(), h.service_type.spec_value()] + u32_bytes(h.x_id) + u16_bytes(
        0,
    ) + u16_bytes(h.data_length)
}

/// A view over the raw bytes of a DCP payload, header first.
pub struct DcpHeaderFrame<'a> {
    pub buffer: &'a [u8],
}

impl<'a> DcpHeaderFrame<'a> {
    pub fn new_unchecked(buffer: &'a [u8]) -> (r: Self)
        ensures
            r.buffer@ == buffer@,
    {
        DcpHeaderFrame { buffer }
    }

    /// The view, when `buffer` can hold a header.
    pub fn new_checked(buffer: &'a [u8]) -> (r: Result<Self, ParseDcpHeaderError>)
        ensures
            match r {
                Ok(f) => f.buffer@ == buffer@ && buffer@.len() >= DCP_HEADER_LENGTH_FIELD,
                Err(e) => e == ParseDcpHeaderError::InvalidHeaderLength && buffer@.len()
                    < DCP_HEADER_LENGTH_FIELD,
            },
    {
        let header = Self::new_unchecked(buffer);
        if header.check_len() {
            Ok(header)
        } else {
            Err(ParseDcpHeaderError::InvalidHeaderLength)
        }
    }

    /// Whether the buffer can hold a header.
    pub fn check_len(&self) -> (r: bool)
        ensures
            r == (self.buffer@.len() >= DCP_HEADER_LENGTH_FIELD),
    {
        self.buffer.len() >= DCP_HEADER_LENGTH_FIELD
    }

    pub fn service_id(&self) -> (r: Result<ServiceId, ParseDcpHeaderError>)
        requires
            self.buffer@.len() >= 1,
        ensures
            r == match ServiceId::spec_from(self.buffer@[0]) {
                Some(s) => Ok(s),
                None => Err(ParseDcpHeaderError::InvalidServiceID),
            },
    {
        match ServiceId::from_u8(self.buffer[0]) {
            Some(s) => Ok(s),
            None => Err(ParseDcpHeaderError::InvalidServiceID),
        }
    }

    pub fn service_type(&self) -> (r: Result<ServiceType, ParseDcpHeaderError>)
        requires
            self.buffer@.len() >= 2,
        ensures
            r == match ServiceType::spec_from(self.buffer@[1]) {
                Some(s) => Ok(s),
                None => Err(ParseDcpHeaderError::InvalidServiceType),
            },
    {
        match ServiceType::from_u8(self.buffer[1]) {
            Some(s) => Ok(s),
            None => Err(ParseDcpHeaderError::InvalidServiceType),
        }
    }

    pub fn x_id(&self) -> (r: u32)
        requires
            self.buffer@.len() >= 6,
        ensures
            r == be32_at(self.buffer@, 2),
    {
        read_u32(self.buffer, 2)
    }

    pub fn response_delay(&self) -> (r: u16)
        requires
            self.buffer@.len() >= 8,
        ensures
            r == be16_at(self.buffer@, 6),
    {
        read_u16(self.buffer, 6)
    }

    pub fn data_length(&self) -> (r: u16)
        requires
            self.buffer@.len() >= DCP_HEADER_LENGTH_FIELD,
        ensures
            r == be16_at(self.buffer@, 8),
    {
        read_u16(self.buffer, 8)
    }

    /// The bytes after the header: the blocks.
    pub fn payload(&self) -> (r: &'a [u8])
        requires
            self.buffer@.len() >= DCP_HEADER_LENGTH_FIELD,
        ensures
            r@ == self.buffer@.skip(DCP_HEADER_LENGTH_FIELD as int),
    {
        vstd::slice::slice_subrange(self.buffer, DCP_HEADER_LENGTH_FIELD, self.buffer.len())
    }
}

impl DcpHeader {
    /// A header with no blocks yet.
    pub fn new(
        service_id: ServiceId,
        service_type: ServiceType,
        x_id: u32,
        response_delay: u16,
    ) -> (r: Self)
        ensures
            r == (DcpHeader {
                service_id,
                service_type,
                x_id,
                response_delay_factor: response_delay,
                data_length: 0,
            }),
    {
        Self {
            service_id,
            service_type,
            x_id,
            response_delay_factor: response_delay,
            data_length: 0,
        }
    }

    /// Parses the header at the front of `frame`.
    pub fn parse(frame: &DcpHeaderFrame) -> (r: Result<Self, ParseDcpHeaderError>)
        ensures
            r == spec_parse_header(frame.buffer@),
    {
        if !frame.check_len() {
            return Err(ParseDcpHeaderError::InvalidHeaderLength);
        }
        let service_id = match frame.service_id() {
            Ok(s) => s,
            Err(e) => return Err(e),
        };
        let service_type = match frame.service_type() {
            Ok(s) => s,
            Err(e) => return Err(e),
        };
        Ok(
            Self {
                service_id,
                service_type,
                x_id: frame.x_id(),
                response_delay_factor: frame.response_delay(),
                data_length: frame.data_length(),
            },
        )
    }

    /// Writes the header at `buffer[at..at + 10]`, with a response delay factor of 0.
    pub fn encode_at(&self, buffer: &mut [u8], at: usize)
        requires
            at + DCP_HEADER_LENGTH_FIELD <= old(buffer).len(),
        ensures
            final(buffer)@ == splice(old(buffer)@, at as int, header_bytes(*self)),
    {
        let ghost s0 = buffer@;
        let ghost ids = seq![self.service_id.spec_value(), self.service_type.spec_value()];
        put_u8(buffer, at, self.service_id.as_u8());
        put_u8(buffer, at + 1, self.service_type.as_u8());
        proof {
            lemma_splice_twice(
                s0,
                at as int,
                seq![self.service_id.spec_value()],
                seq![self.service_type.spec_value()],
            );
            assert(seq![self.service_id.spec_value()] + seq![self.service_type.spec_value()]
                =~= ids);
        }
        write_u32(buffer, at + 2, self.x_id);
        proof {
            lemma_splice_twice(s0, at as int, ids, u32_bytes(self.x_id));
        }
        write_u16(buffer, at + 6, 0);
        proof {
            lemma_splice_twice(s0, at as int, ids + u32_bytes(self.x_id), u16_bytes(0));
        }
        write_u16(buffer, at + 8, self.data_length);
        proof {
            lemma_splice_twice(
                s0,
                at as int,
                ids + u32_bytes(self.x_id) + u16_bytes(0),
                u16_bytes(self.data_length),
            );
        }
    }

    /// Writes the header at the front of `buffer`, with a response delay factor of 0.
    pub fn encode_into(&self, buffer: &mut [u8])
        requires
            DCP_HEADER_LENGTH_FIELD <= old(buffer).len(),
        ensures
            final(buffer)@ == splice(old(buffer)@, 0, header_bytes(*self)),
    {
        self.encode_at(buffer, 0);
    }
}

} // verus!
