//! Decoders for tuples up to thirty-two positions: each position decoded
//! in declared order, every position taking the empty argument, aborting on
//! the first failure; the finalize phase runs position by position in the
//! same order.

use vstd::prelude::*;

use crate::binread::BinRead;
use crate::endian::Endian;
use crate::error::BinResult;
use crate::error::Error;
use crate::io::Cursor;
use crate::io::StreamView;
use crate::options::ReadOptions;

verus! {

impl<T0: BinRead<Args = ()>> BinRead for (T0,) {
    type Args = ();

    type Model = (T0::Model,);

    open spec fn model(self) -> (T0::Model,) {
        (self.0.model(),)
    }

    open spec fn spec_read(s: StreamView, endian: Endian, args: ()) -> Result<
        ((T0::Model,), int),
        Error,
    > {
        match T0::spec_read(s, endian, ()) {
            Err(e) => Err(e),
            Ok((m0, p0)) => Ok(((m0,), p0)),
        }
    }

    open spec fn spec_after(m: (T0::Model,), s: StreamView, endian: Endian, args: ()) -> Result<
        ((T0::Model,), int),
        Error,
    > {
        match T0::spec_after(m.0, s, endian, ()) {
            Err(e) => Err(e),
            Ok((m0, p0)) => Ok(((m0,), p0)),
        }
    }

    open spec fn restores_on_failure() -> bool {
        false
    }

    fn read_options(reader: &mut Cursor, options: &ReadOptions, args: ()) -> (r: BinResult<
        (T0,),
    >) {
        proof {
            assert(!Self::restores_on_failure());
        }
        let v0 = match T0::read_options(reader, options, ()) {
            Ok(v) => v,
            Err(e) => {
                return Err(e);
            },
        };
        Ok((v0,))
    }

    fn after_parse(self, reader: &mut Cursor, options: &ReadOptions, args: ()) -> (r: BinResult<
        (T0,),
    >) {
        let (x0,) = self;
        let v0 = match x0.after_parse(reader, options, ()) {
            Ok(v) => v,
            Err(e) => {
                return Err(e);
            },
        };
        Ok((v0,))
    }
}

impl<T0: BinRead<Args = ()>, T1: BinRead<Args = ()>> BinRead for (T0, T1) {
    type Args = ();

    type Model = (T0::Model, T1::Model);

    open spec fn model(self) -> (T0::Model, T1::Model) {
        (self.0.model(), self.1.model())
    }

    open spec fn spec_read(s: StreamView, endian: Endian, args: ()) -> Result<
        ((T0::Model, T1::Model), int),
        Error,
    > {
        match T0::spec_read(s, endian, ()) {
            Err(e) => Err(e),
            Ok((m0, p0)) => {
                match T1::spec_read(StreamView { data: s.data, pos: p0 }, endian, ()) {
                    Err(e) => Err(e),
                    Ok((m1, p1)) => Ok(((m0, m1), p1)),
                }
            },
        }
    }

    open spec fn spec_after(m: (T0::Model, T1::Model), s: StreamView, endian: Endian, args: ()) -> Result<
        ((T0::Model, T1::Model), int),
        Error,
    > {
        match T0::spec_after(m.0, s, endian, ()) {
            Err(e) => Err(e),
            Ok((m0, p0)) => {
                match T1::spec_after(m.1, StreamView { data: s.data, pos: p0 }, endian, ()) {
                    Err(e) => Err(e),
                    Ok((m1, p1)) => Ok(((m0, m1), p1)),
                }
            },
        }
    }

    open spec fn restores_on_failure() -> bool {
        false
    }

    fn read_options(reader: &mut Cursor, options: &ReadOptions, args: ()) -> (r: BinResult<
        (T0, T1),
    >) {
        proof {
            assert(!Self::restores_on_failure());
        }
        let v0 = match T0::read_options(reader, options, ()) {
            Ok(v) => v,
            Err(e) => {
                return Err(e);
            },
        };
        let v1 = match T1::read_options(reader, options, ()) {
            Ok(v) => v,
            Err(e) => {
                return Err(e);
            },
        };
        Ok((v0, v1))
    }

    fn after_parse(self, reader: &mut Cursor, options: &ReadOptions, args: ()) -> (r: BinResult<
        (T0, T1),
    >) {
        let (x0, x1) = self;
        let v0 = match x0.after_parse(reader, options, ()) {
            Ok(v) => v,
            Err(e) => {
                return Err(e);
            },
        };
        let v1 = match x1.after_parse(reader, options, ()) {
            Ok(v) => v,
            Err(e) => {
                return Err(e);
            },
        };
        Ok((v0, v1))
    }
}

impl<T0: BinRead<Args = ()>, T1: BinRead<Args = ()>, T2: BinRead<Args = ()>> BinRead for (T0, T1, T2) {
    type Args = ();

    type Model = (T0::Model, T1::Model, T2::Model);

    open spec fn model(self) -> (T0::Model, T1::Model, T2::Model) {
        (self.0.model(), self.1.model(), self.2.model())
    }

    open spec fn spec_read(s: StreamView, endian: Endian, args: ()) -> Result<
        ((T0::Model, T1::Model, T2::Model), int),
        Error,
    > {
        match T0::spec_read(s, endian, ()) {
            Err(e) => Err(e),
            Ok((m0, p0)) => {
                match T1::spec_read(StreamView { data: s.data, pos: p0 }, endian, ()) {
                    Err(e) => Err(e),
                    Ok((m1, p1)) => {
                        match T2::spec_read(StreamView { data: s.data, pos: p1 }, endian, ()) {
                            Err(e) => Err(e),
                            Ok((m2, p2)) => Ok(((m0, m1, m2), p2)),
                        }
                    },
                }
            },
        }
    }

    open spec fn spec_after(m: (T0::Model, T1::Model, T2::Model), s: StreamView, endian: Endian, args: ()) -> Result<
        ((T0::Model, T1::Model, T2::Model), int),
        Error,
    > {
        match T0::spec_after(m.0, s, endian, ()) {
            Err(e) => Err(e),
            Ok((m0, p0)) => {
                match T1::spec_after(m.1, StreamView { data: s.data, pos: p0 }, endian, ()) {
                    Err(e) => Err(e),
                    Ok((m1, p1)) => {
                        match T2::spec_after(m.2, StreamView { data: s.data, pos: p1 }, endian, ()) {
                            Err(e) => Err(e),
                            Ok((m2, p2)) => Ok(((m0, m1, m2), p2)),
                        }
                    },
                }
            },
        }
    }

    open spec fn restores_on_failure() -> bool {
        false
    }

    fn read_options(reader: &mut Cursor, options: &ReadOptions, args: ()) -> (r: BinResult<
        (T0, T1, T2),
    >) {
        proof {
            assert(!Self::restores_on_failure());
        }
        let v0 = match T0::read_options(reader, options, ()) {
            Ok(v) => v,
            Err(e) => {
                return Err(e);
            },
        };
        let v1 = match T1::read_options(reader, options, ()) {
            Ok(v) => v,
            Err(e) => {
                return Err(e);
            },
        };
        let v2 = match T2::read_options(reader, options, ()) {
            Ok(v) => v,
            Err(e) => {
                return Err(e);
            },
        };
        Ok((v0, v1, v2))
    }

    fn after_parse(self, reader: &mut Cursor, options: &ReadOptions, args: ()) -> (r: BinResult<
        (T0, T1, T2),
    >) {
        let (x0, x1, x2) = self;
        let v0 = match x0.after_parse(reader, options, ()) {
            Ok(v) => v,
            Err(e) => {
                return Err(e);
            },
        };
        let v1 = match x1.after_parse(reader, options, ()) {
            Ok(v) => v,
            Err(e) => {
                return Err(e);
            },
        };
        let v2 = match x2.after_parse(reader, options, ()) {
            Ok(v) => v,
            Err(e) => {
                return Err(e);
            },
        };
        Ok((v0, v1, v2))
    }
}

impl<T0: BinRead<Args = ()>, T1: BinRead<Args = ()>, T2: BinRead<Args = ()>, T3: BinRead<Args = ()>> BinRead for (T0, T1, T2, T3) {
    type Args = ();

    type Model = (T0::Model, T1::Model, T2::Model, T3::Model);

    open spec fn model(self) -> (T0::Model, T1::Model, T2::Model, T3::Model) {
        (self.0.model(), self.1.model(), self.2.model(), self.3.model())
    }

    open spec fn spec_read(s: StreamView, endian: Endian, args: ()) -> Result<
        ((T0::Model, T1::Model, T2::Model, T3::Model), int),
        Error,
    > {
        match T0::spec_read(s, endian, ()) {
            Err(e) => Err(e),
            Ok((m0, p0)) => {
                match T1::spec_read(StreamView { data: s.data, pos: p0 }, endian, ()) {
                    Err(e) => Err(e),
                    Ok((m1, p1)) => {
                        match T2::spec_read(StreamView { data: s.data, pos: p1 }, endian, ()) {
                            Err(e) => Err(e),
                            Ok((m2, p2)) => {
                                match T3::spec_read(StreamView { data: s.data, pos: p2 }, endian, ()) {
                                    Err(e) => Err(e),
                                    Ok((m3, p3)) => Ok(((m0, m1, m2, m3), p3)),
                                }
                            },
                        }
                    },
                }
            },
        }
    }

    open spec fn spec_after(m: (T0::Model, T1::Model, T2::Model, T3::Model), s: StreamView, endian: Endian, args: ()) -> Result<
        ((T0::Model, T1::Model, T2::Model, T3::Model), int),
        Error,
    > {
        match T0::spec_after(m.0, s, endian, ()) {
            Err(e) => Err(e),
            Ok((m0, p0)) => {
                match T1::spec_after(m.1, StreamView { data: s.data, pos: p0 }, endian, ()) {
                    Err(e) => Err(e),
                    Ok((m1, p1)) => {
                        match T2::spec_after(m.2, StreamView { data: s.data, pos: p1 }, endian, ()) {
                            Err(e) => Err(e),
                            Ok((m2, p2)) => {
                                match T3::spec_after(m.3, StreamView { data: s.data, pos: p2 }, endian, ()) {
                                    Err(e) => Err(e),
                                    Ok((m3, p3)) => Ok(((m0, m1, m2, m3), p3)),
                                }
                            },
                        }
                    },
                }
            },
        }
    }

    open spec fn restores_on_failure() -> bool {
        false
    }

    fn read_options(reader: &mut Cursor, options: &ReadOptions, args: ()) -> (r: BinResult<
        (T0, T1, T2, T3),
    >) {
        proof {
            assert(!Self::restores_on_failure());
        }
        let v0 = match T0::read_options(reader, options, ()) {
            Ok(v) => v,
            Err(e) => {
                return Err(e);
            },
        };
        let v1 = match T1::read_options(reader, options, ()) {
            Ok(v) => v,
            Err(e) => {
                return Err(e);
            },
        };
        let v2 = match T2::read_options(reader, options, ()) {
            Ok(v) => v,
            Err(e) => {
                return Err(e);
            },
        };
        let v3 = match T3::read_options(reader, options, ()) {
            Ok(v) => v,
            Err(e) => {
                return Err(e);
            },
        };
        Ok((v0, v1, v2, v3))
    }

    fn after_parse(self, reader: &mut Cursor, options: &ReadOptions, args: ()) -> (r: BinResult<
        (T0, T1, T2, T3),
    >) {
        let (x0, x1, x2, x3) = self;
        let v0 = match x0.after_parse(reader, options, ()) {
            Ok(v) => v,
            Err(e) => {
                return Err(e);
            },
        };
        let v1 = match x1.after_parse(reader, options, ()) {
            Ok(v) => v,
            Err(e) => {
                return Err(e);
            },
        };
        let v2 = match x2.after_parse(reader, options, ()) {
            Ok(v) => v,
            Err(e) => {
                return Err(e);
            },
        };
        let v3 = match x3.after_parse(reader, options, ()) {
            Ok(v) => v,
            Err(e) => {
                return Err(e);
            },
        };
        Ok((v0, v1, v2, v3))
    }
}

impl<T0: BinRead<Args = ()>, T1: BinRead<Args = ()>, T2: BinRead<Args = ()>, T3: BinRead<Args = ()>, T4: BinRead<Args = ()>> BinRead for (T0, T1, T2, T3, T4) {
    type Args = ();

    type Model = (T0::Model, T1::Model, T2::Model, T3::Model, T4::Model);

    open spec fn model(self) -> (T0::Model, T1::Model, T2::Model, T3::Model, T4::Model) {
        (self.0.model(), self.1.model(), self.2.model(), self.3.model(), self.4.model())
    }

    open spec fn spec_read(s: StreamView, endian: Endian, args: ()) -> Result<
        ((T0::Model, T1::Model, T2::Model, T3::Model, T4::Model), int),
        Error,
    > {
        match T0::spec_read(s, endian, ()) {
            Err(e) => Err(e),
            Ok((m0, p0)) => {
                match T1::spec_read(StreamView { data: s.data, pos: p0 }, endian, ()) {
                    Err(e) => Err(e),
                    Ok((m1, p1)) => {
                        match T2::spec_read(StreamView { data: s.data, pos: p1 }, endian, ()) {
                            Err(e) => Err(e),
                            Ok((m2, p2)) => {
                                match T3::spec_read(StreamView { data: s.data, pos: p2 }, endian, ()) {
                                    Err(e) => Err(e),
                                    Ok((m3, p3)) => {
                                        match T4::spec_read(StreamView { data: s.data, pos: p3 }, endian, ()) {
                                            Err(e) => Err(e),
                                            Ok((m4, p4)) => Ok(((m0, m1, m2, m3, m4), p4)),
                                        }
                                    },
                                }
                            },
                        }
                    },
                }
            },
        }
    }

    open spec fn spec_after(m: (T0::Model, T1::Model, T2::Model, T3::Model, T4::Model), s: StreamView, endian: Endian, args: ()) -> Result<
        ((T0::Model, T1::Model, T2::Model, T3::Model, T4::Model), int),
        Error,
    > {
        match T0::spec_after(m.0, s, endian, ()) {
            Err(e) => Err(e),
            Ok((m0, p0)) => {
                match T1::spec_after(m.1, StreamView { data: s.data, pos: p0 }, endian, ()) {
                    Err(e) => Err(e),
                    Ok((m1, p1)) => {
                        match T2::spec_after(m.2, StreamView { data: s.data, pos: p1 }, endian, ()) {
                            Err(e) => Err(e),
                            Ok((m2, p2)) => {
                                match T3::spec_after(m.3, StreamView { data: s.data, pos: p2 }, endian, ()) {
                                    Err(e) => Err(e),
                                    Ok((m3, p3)) => {
                                        match T4::spec_after(m.4, StreamView { data: s.data, pos: p3 }, endian, ()) {
                                            Err(e) => Err(e),
                                            Ok((m4, p4)) => Ok(((m0, m1, m2, m3, m4), p4)),
                                        }
                                    },
                                }
                            },
                        }
                    },
                }
            },
        }
    }

    open spec fn restores_on_failure() -> bool {
        false
    }

    fn read_options(reader: &mut Cursor, options: &ReadOptions, args: ()) -> (r: BinResult<
        (T0, T1, T2, T3, T4),
    >) {
        proof {
            assert(!Self::restores_on_failure());
        }
        let v0 = match T0::read_options(reader, options, ()) {
            Ok(v) => v,
            Err(e) => {
                return Err(e);
            },
        };
        let v1 = match T1::read_options(reader, options, ()) {
            Ok(v) => v,
            Err(e) => {
                return Err(e);
            },
        };
        let v2 = match T2::read_options(reader, options, ()) {
            Ok(v) => v,
            Err(e) => {
                return Err(e);
            },
        };
        let v3 = match T3::read_options(reader, options, ()) {
            Ok(v) => v,
            Err(e) => {
                return Err(e);
            },
        };
        let v4 = match T4::read_options(reader, options, ()) {
            Ok(v) => v,
            Err(e) => {
                return Err(e);
            },
        };
        Ok((v0, v1, v2, v3, v4))
    }

    fn after_parse(self, reader: &mut Cursor, options: &ReadOptions, args: ()) -> (r: BinResult<
        (T0, T1, T2, T3, T4),
    >) {
        let (x0, x1, x2, x3, x4) = self;
        let v0 = match x0.after_parse(reader, options, ()) {
            Ok(v) => v,
            Err(e) => {
                return Err(e);
            },
        };
        let v1 = match x1.after_parse(reader, options, ()) {
            Ok(v) => v,
            Err(e) => {
                return Err(e);
            },
        };
        let v2 = match x2.after_parse(reader, options, ()) {
            Ok(v) => v,
            Err(e) => {
                return Err(e);
            },
        };
        let v3 = match x3.after_parse(reader, options, ()) {
            Ok(v) => v,
            Err(e) => {
                return Err(e);
            },
        };
        let v4 = match x4.after_parse(reader, options, ()) {
            Ok(v) => v,
            Err(e) => {
                return Err(e);
            },
        };
        Ok((v0, v1, v2, v3, v4))
    }
}

impl<T0: BinRead<Args = ()>, T1: BinRead<Args = ()>, T2: BinRead<Args = ()>, T3: BinRead<Args = ()>, T4: BinRead<Args = ()>, T5: BinRead<Args = ()>> BinRead for (T0, T1, T2, T3, T4, T5) {
    type Args = ();

    type Model = (T0::Model, T1::Model, T2::Model, T3::Model, T4::Model, T5::Model);

    open spec fn model(self) -> (T0::Model, T1::Model, T2::Model, T3::Model, T4::Model, T5::Model) {
        (self.0.model(), self.1.model(), self.2.model(), self.3.model(), self.4.model(), self.5.model())
    }

    open spec fn spec_read(s: StreamView, endian: Endian, args: ()) -> Result<
        ((T0::Model, T1::Model, T2::Model, T3::Model, T4::Model, T5::Model), int),
        Error,
    > {
        match T0::spec_read(s, endian, ()) {
            Err(e) => Err(e),
            Ok((m0, p0)) => {
                match T1::spec_read(StreamView { data: s.data, pos: p0 }, endian, ()) {
                    Err(e) => Err(e),
                    Ok((m1, p1)) => {
                        match T2::spec_read(StreamView { data: s.data, pos: p1 }, endian, ()) {
                            Err(e) => Err(e),
                            Ok((m2, p2)) => {
                                match T3::spec_read(StreamView { data: s.data, pos: p2 }, endian, ()) {
                                    Err(e) => Err(e),
                                    Ok((m3, p3)) => {
                                        match T4::spec_read(StreamView { data: s.data, pos: p3 }, endian, ()) {
                                            Err(e) => Err(e),
                                            Ok((m4, p4)) => {
                                                match T5::spec_read(StreamView { data: s.data, pos: p4 }, endian, ()) {
                                                    Err(e) => Err(e),
                                                    Ok((m5, p5)) => Ok(((m0, m1, m2, m3, m4, m5), p5)),
                                                }
                                            },
                                        }
                                    },
                                }
                            },
                        }
                    },
                }
            },
        }
    }

    open spec fn spec_after(m: (T0::Model, T1::Model, T2::Model, T3::Model, T4::Model, T5::Model), s: StreamView, endian: Endian, args: ()) -> Result<
        ((T0::Model, T1::Model, T2::Model, T3::Model, T4::Model, T5::Model), int),
        Error,
    > {
        match T0::spec_after(m.0, s, endian, ()) {
            Err(e) => Err(e),
            Ok((m0, p0)) => {
                match T1::spec_after(m.1, StreamView { data: s.data, pos: p0 }, endian, ()) {
                    Err(e) => Err(e),
                    Ok((m1, p1)) => {
                        match T2::spec_after(m.2, StreamView { data: s.data, pos: p1 }, endian, ()) {
                            Err(e) => Err(e),
                            Ok((m2, p2)) => {
                                match T3::spec_after(m.3, StreamView { data: s.data, pos: p2 }, endian, ()) {
                                    Err(e) => Err(e),
                                    Ok((m3, p3)) => {
                                        match T4::spec_after(m.4, StreamView { data: s.data, pos: p3 }, endian, ()) {
                                            Err(e) => Err(e),
                                            Ok((m4, p4)) => {
                                                match T5::spec_after(m.5, StreamView { data: s.data, pos: p4 }, endian, ()) {
                                                    Err(e) => Err(e),
                                                    Ok((m5, p5)) => Ok(((m0, m1, m2, m3, m4, m5), p5)),
                                                }
                                            },
                                        }
                                    },
                                }
                            },
                        }
                    },
                }
            },
        }
    }

    open spec fn restores_on_failure() -> bool {
        false
    }

    fn read_options(reader: &mut Cursor, options: &ReadOptions, args: ()) -> (r: BinResult<
        (T0, T1, T2, T3, T4, T5),
    >) {
        proof {
            assert(!Self::restores_on_failure());
        }
        let v0 = match T0::read_options(reader, options, ()) {
            Ok(v) => v,
            Err(e) => {
                return Err(e);
            },
        };
        let v1 = match T1::read_options(reader, options, ()) {
            Ok(v) => v,
            Err(e) => {
                return Err(e);
            },
        };
        let v2 = match T2::read_options(reader, options, ()) {
            Ok(v) => v,
            Err(e) => {
                return Err(e);
            },
        };
        let v3 = match T3::read_options(reader, options, ()) {
            Ok(v) => v,
            Err(e) => {
                return Err(e);
            },
        };
        let v4 = match T4::read_options(reader, options, ()) {
            Ok(v) => v,
            Err(e) => {
                return Err(e);
            },
        };
        let v5 = match T5::read_options(reader, options, ()) {
            Ok(v) => v,
            Err(e) => {
                return Err(e);
            },
        };
        Ok((v0, v1, v2, v3, v4, v5))
    }

    fn after_parse(self, reader: &mut Cursor, options: &ReadOptions, args: ()) -> (r: BinResult<
        (T0, T1, T2, T3, T4, T5),
    >) {
        let (x0, x1, x2, x3, x4, x5) = self;
        let v0 = match x0.after_parse(reader, options, ()) {
            Ok(v) => v,
            Err(e) => {
                return Err(e);
            },
        };
        let v1 = match x1.after_parse(reader, options, ()) {
            Ok(v) => v,
            Err(e) => {
                return Err(e);
            },
        };
        let v2 = match x2.after_parse(reader, options, ()) {
            Ok(v) => v,
            Err(e) => {
                return Err(e);
            },
        };
        let v3 = match x3.after_parse(reader, options, ()) {
            Ok(v) => v,
            Err(e) => {
                return Err(e);
            },
        };
        let v4 = match x4.after_parse(reader, options, ()) {
            Ok(v) => v,
            Err(e) => {
                return Err(e);
            },
        };
        let v5 = match x5.after_parse(reader, options, ()) {
            Ok(v) => v,
            Err(e) => {
                return Err(e);
            },
        };
        Ok((v0, v1, v2, v3, v4, v5))
    }
}

impl<T0: BinRead<Args = ()>, T1: BinRead<Args = ()>, T2: BinRead<Args = ()>, T3: BinRead<Args = ()>, T4: BinRead<Args = ()>, T5: BinRead<Args = ()>, T6: BinRead<Args = ()>> BinRead for (T0, T1, T2, T3, T4, T5, T6) {
    type Args = ();

    type Model = (T0::Model, T1::Model, T2::Model, T3::Model, T4::Model, T5::Model, T6::Model);

    open spec fn model(self) -> (T0::Model, T1::Model, T2::Model, T3::Model, T4::Model, T5::Model, T6::Model) {
        (self.0.model(), self.1.model(), self.2.model(), self.3.model(), self.4.model(), self.5.model(), self.6.model())
    }

    open spec fn spec_read(s: StreamView, endian: Endian, args: ()) -> Result<
        ((T0::Model, T1::Model, T2::Model, T3::Model, T4::Model, T5::Model, T6::Model), int),
        Error,
    > {
        match T0::spec_read(s, endian, ()) {
            Err(e) => Err(e),
            Ok((m0, p0)) => {
                match T1::spec_read(StreamView { data: s.data, pos: p0 }, endian, ()) {
                    Err(e) => Err(e),
                    Ok((m1, p1)) => {
                        match T2::spec_read(StreamView { data: s.data, pos: p1 }, endian, ()) {
                            Err(e) => Err(e),
                            Ok((m2, p2)) => {
                                match T3::spec_read(StreamView { data: s.data, pos: p2 }, endian, ()) {
                                    Err(e) => Err(e),
                                    Ok((m3, p3)) => {
                                        match T4::spec_read(StreamView { data: s.data, pos: p3 }, endian, ()) {
                                            Err(e) => Err(e),
                                            Ok((m4, p4)) => {
                                                match T5::spec_read(StreamView { data: s.data, pos: p4 }, endian, ()) {
                                                    Err(e) => Err(e),
                                                    Ok((m5, p5)) => {
                                                        match T6::spec_read(StreamView { data: s.data, pos: p5 }, endian, ()) {
                                                            Err(e) => Err(e),
                                                            Ok((m6, p6)) => Ok(((m0, m1, m2, m3, m4, m5, m6), p6)),
                                                        }
                                                    },
                                                }
                                            },
                                        }
                                    },
                                }
                            },
                        }
                    },
                }
            },
        }
    }

    open spec fn spec_after(m: (T0::Model, T1::Model, T2::Model, T3::Model, T4::Model, T5::Model, T6::Model), s: StreamView, endian: Endian, args: ()) -> Result<
        ((T0::Model, T1::Model, T2::Model, T3::Model, T4::Model, T5::Model, T6::Model), int),
        Error,
    > {
        match T0::spec_after(m.0, s, endian, ()) {
            Err(e) => Err(e),
            Ok((m0, p0)) => {
                match T1::spec_after(m.1, StreamView { data: s.data, pos: p0 }, endian, ()) {
                    Err(e) => Err(e),
                    Ok((m1, p1)) => {
                        match T2::spec_after(m.2, StreamView { data: s.data, pos: p1 }, endian, ()) {
                            Err(e) => Err(e),
                            Ok((m2, p2)) => {
                                match T3::spec_after(m.3, StreamView { data: s.data, pos: p2 }, endian, ()) {
                                    Err(e) => Err(e),
                                    Ok((m3, p3)) => {
                                        match T4::spec_after(m.4, StreamView { data: s.data, pos: p3 }, endian, ()) {
                                            Err(e) => Err(e),
                                            Ok((m4, p4)) => {
                                                match T5::spec_after(m.5, StreamView { data: s.data, pos: p4 }, endian, ()) {
                                                    Err(e) => Err(e),
                                                    Ok((m5, p5)) => {
                                                        match T6::spec_after(m.6, StreamView { data: s.data, pos: p5 }, endian, ()) {
                                                            Err(e) => Err(e),
                                                            Ok((m6, p6)) => Ok(((m0, m1, m2, m3, m4, m5, m6), p6)),
                                                        }
                                                    },
                                                }
                                            },
                                        }
                                    },
                                }
                            },
                        }
                    },
                }
            },
        }
    }

    open spec fn restores_on_failure() -> bool {
        false
    }

    fn read_options(reader: &mut Cursor, options: &ReadOptions, args: ()) -> (r: BinResult<
        (T0, T1, T2, T3, T4, T5, T6),
    >) {
        proof {
            assert(!Self::restores_on_failure());
        }
        let v0 = match T0::read_options(reader, options, ()) {
            Ok(v) => v,
            Err(e) => {
                return Err(e);
            },
        };
        let v1 = match T1::read_options(reader, options, ()) {
            Ok(v) => v,
            Err(e) => {
                return Err(e);
            },
        };
        let v2 = match T2::read_options(reader, options, ()) {
            Ok(v) => v,
            Err(e) => {
                return Err(e);
            },
        };
        let v3 = match T3::read_options(reader, options, ()) {
            Ok(v) => v,
            Err(e) => {
                return Err(e);
            },
        };
        let v4 = match T4::read_options(reader, options, ()) {
            Ok(v) => v,
            Err(e) => {
                return Err(e);
            },
        };
        let v5 = match T5::read_options(reader, options, ()) {
            Ok(v) => v,
            Err(e) => {
                return Err(e);
            },
        };
        let v6 = match T6::read_options(reader, options, ()) {
            Ok(v) => v,
            Err(e) => {
                return Err(e);
            },
        };
        Ok((v0, v1, v2, v3, v4, v5, v6))
    }

    fn after_parse(self, reader: &mut Cursor, options: &ReadOptions, args: ()) -> (r: BinResult<
        (T0, T1, T2, T3, T4, T5, T6),
    >) {
        let (x0, x1, x2, x3, x4, x5, x6) = self;
        let v0 = match x0.after_parse(reader, options, ()) {
            Ok(v) => v,
            Err(e) => {
                return Err(e);
            },
        };
        let v1 = match x1.after_parse(reader, options, ()) {
            Ok(v) => v,
            Err(e) => {
                return Err(e);
            },
        };
        let v2 = match x2.after_parse(reader, options, ()) {
            Ok(v) => v,
            Err(e) => {
                return Err(e);
            },
        };
        let v3 = match x3.after_parse(reader, options, ()) {
            Ok(v) => v,
            Err(e) => {
                return Err(e);
            },
        };
        let v4 = match x4.after_parse(reader, options, ()) {
            Ok(v) => v,
            Err(e) => {
                return Err(e);
            },
        };
        let v5 = match x5.after_parse(reader, options, ()) {
            Ok(v) => v,
            Err(e) => {
                return Err(e);
            },
        };
        let v6 = match x6.after_parse(reader, options, ()) {
            Ok(v) => v,
            Err(e) => {
                return Err(e);
            },
        };
        Ok((v0, v1, v2, v3, v4, v5, v6))
    }
}

impl<T0: BinRead<Args = ()>, T1: BinRead<Args = ()>, T2: BinRead<Args = ()>, T3: BinRead<Args = ()>, T4: BinRead<Args = ()>, T5: BinRead<Args = ()>, T6: BinRead<Args = ()>, T7: BinRead<Args = ()>> BinRead for (T0, T1, T2, T3, T4, T5, T6, T7) {
    type Args = ();

    type Model = (T0::Model, T1::Model, T2::Model, T3::Model, T4::Model, T5::Model, T6::Model, T7::Model);

    open spec fn model(self) -> (T0::Model, T1::Model, T2::Model, T3::Model, T4::Model, T5::Model, T6::Model, T7::Model) {
        (self.0.model(), self.1.model(), self.2.model(), self.3.model(), self.4.model(), self.5.model(), self.6.model(), self.7.model())
    }

    open spec fn spec_read(s: StreamView, endian: Endian, args: ()) -> Result<
        ((T0::Model, T1::Model, T2::Model, T3::Model, T4::Model, T5::Model, T6::Model, T7::Model), int),
        Error,
    > {
        match T0::spec_read(s, endian, ()) {
            Err(e) => Err(e),
            Ok((m0, p0)) => {
                match T1::spec_read(StreamView { data: s.data, pos: p0 }, endian, ()) {
                    Err(e) => Err(e),
                    Ok((m1, p1)) => {
                        match T2::spec_read(StreamView { data: s.data, pos: p1 }, endian, ()) {
                            Err(e) => Err(e),
                            Ok((m2, p2)) => {
                                match T3::spec_read(StreamView { data: s.data, pos: p2 }, endian, ()) {
                                    Err(e) => Err(e),
                                    Ok((m3, p3)) => {
                                        match T4::spec_read(StreamView { data: s.data, pos: p3 }, endian, ()) {
                                            Err(e) => Err(e),
                                            Ok((m4, p4)) => {
                                                match T5::spec_read(StreamView { data: s.data, pos: p4 }, endian, ()) {
                                                    Err(e) => Err(e),
                                                    Ok((m5, p5)) => {
                                                        match T6::spec_read(StreamView { data: s.data, pos: p5 }, endian, ()) {
                                                            Err(e) => Err(e),
                                                            Ok((m6, p6)) => {
                                                                match T7::spec_read(StreamView { data: s.data, pos: p6 }, endian, ()) {
                                                                    Err(e) => Err(e),
                                                                    Ok((m7, p7)) => Ok(((m0, m1, m2, m3, m4, m5, m6, m7), p7)),
                                                                }
                                                            },
                                                        }
                                                    },
                                                }
                                            },
                                        }
                                    },
                                }
                            },
                        }
                    },
                }
            },
        }
    }

    open spec fn spec_after(m: (T0::Model, T1::Model, T2::Model, T3::Model, T4::Model, T5::Model, T6::Model, T7::Model), s: StreamView, endian: Endian, args: ()) -> Result<
        ((T0::Model, T1::Model, T2::Model, T3::Model, T4::Model, T5::Model, T6::Model, T7::Model), int),
        Error,
    > {
        match T0::spec_after(m.0, s, endian, ()) {
            Err(e) => Err(e),
            Ok((m0, p0)) => {
                match T1::spec_after(m.1, StreamView { data: s.data, pos: p0 }, endian, ()) {
                    Err(e) => Err(e),
                    Ok((m1, p1)) => {
                        match T2::spec_after(m.2, StreamView { data: s.data, pos: p1 }, endian, ()) {
                            Err(e) => Err(e),
                            Ok((m2, p2)) => {
                                match T3::spec_after(m.3, StreamView { data: s.data, pos: p2 }, endian, ()) {
                                    Err(e) => Err(e),
                                    Ok((m3, p3)) => {
                                        match T4::spec_after(m.4, StreamView { data: s.data, pos: p3 }, endian, ()) {
                                            Err(e) => Err(e),
                                            Ok((m4, p4)) => {
                                                match T5::spec_after(m.5, StreamView { data: s.data, pos: p4 }, endian, ()) {
                                                    Err(e) => Err(e),
                                                    Ok((m5, p5)) => {
                                                        match T6::spec_after(m.6, StreamView { data: s.data, pos: p5 }, endian, ()) {
                                                            Err(e) => Err(e),
                                                            Ok((m6, p6)) => {
                                                                match T7::spec_after(m.7, StreamView { data: s.data, pos: p6 }, endian, ()) {
                                                                    Err(e) => Err(e),
                                                                    Ok((m7, p7)) => Ok(((m0, m1, m2, m3, m4, m5, m6, m7), p7)),
                                                                }
                                                            },
                                                        }
                                                    },
                                                }
                                            },
                                        }
                                    },
                                }
                            },
                        }
                    },
                }
            },
        }
    }

    open spec fn restores_on_failure() -> bool {
        false
    }

    fn read_options(reader: &mut Cursor, options: &ReadOptions, args: ()) -> (r: BinResult<
        (T0, T1, T2, T3, T4, T5, T6, T7),
    >) {
        proof {
            assert(!Self::restores_on_failure());
        }
        let v0 = match T0::read_options(reader, options, ()) {
            Ok(v) => v,
            Err(e) => {
                return Err(e);
            },
        };
        let v1 = match T1::read_options(reader, options, ()) {
            Ok(v) => v,
            Err(e) => {
                return Err(e);
            },
        };
        let v2 = match T2::read_options(reader, options, ()) {
            Ok(v) => v,
            Err(e) => {
                return Err(e);
            },
        };
        let v3 = match T3::read_options(reader, options, ()) {
            Ok(v) => v,
            Err(e) => {
                return Err(e);
            },
        };
        let v4 = match T4::read_options(reader, options, ()) {
            Ok(v) => v,
            Err(e) => {
                return Err(e);
            },
        };
        let v5 = match T5::read_options(reader, options, ()) {
            Ok(v) => v,
            Err(e) => {
                return Err(e);
            },
        };
        let v6 = match T6::read_options(reader, options, ()) {
            Ok(v) => v,
            Err(e) => {
                return Err(e);
            },
        };
        let v7 = match T7::read_options(reader, options, ()) {
            Ok(v) => v,
            Err(e) => {
                return Err(e);
            },
        };
        Ok((v0, v1, v2, v3, v4, v5, v6, v7))
    }

    fn after_parse(self, reader: &mut Cursor, options: &ReadOptions, args: ()) -> (r: BinResult<
        (T0, T1, T2, T3, T4, T5, T6, T7),
    >) {
        let (x0, x1, x2, x3, x4, x5, x6, x7) = self;
        let v0 = match x0.after_parse(reader, options, ()) {
            Ok(v) => v,
            Err(e) => {
                return Err(e);
            },
        };
        let v1 = match x1.after_parse(reader, options, ()) {
            Ok(v) => v,
            Err(e) => {
                return Err(e);
            },
        };
        let v2 = match x2.after_parse(reader, options, ()) {
            Ok(v) => v,
            Err(e) => {
                return Err(e);
            },
        };
        let v3 = match x3.after_parse(reader, options, ()) {
            Ok(v) => v,
            Err(e) => {
                return Err(e);
            },
        };
        let v4 = match x4.after_parse(reader, options, ()) {
            Ok(v) => v,
            Err(e) => {
                return Err(e);
            },
        };
        let v5 = match x5.after_parse(reader, options, ()) {
            Ok(v) => v,
            Err(e) => {
                return Err(e);
            },
        };
        let v6 = match x6.after_parse(reader, options, ()) {
            Ok(v) => v,
            Err(e) => {
                return Err(e);
            },
        };
        let v7 = match x7.after_parse(reader, options, ()) {
            Ok(v) => v,
            Err(e) => {
                return Err(e);
            },
        };
        Ok((v0, v1, v2, v3, v4, v5, v6, v7))
    }
}

impl<T0: BinRead<Args = ()>, T1: BinRead<Args = ()>, T2: BinRead<Args = ()>, T3: BinRead<Args = ()>, T4: BinRead<Args = ()>, T5: BinRead<Args = ()>, T6: BinRead<Args = ()>, T7: BinRead<Args = ()>, T8: BinRead<Args = ()>> BinRead for (T0, T1, T2, T3, T4, T5, T6, T7, T8) {
    type Args = ();

    type Model = (T0::Model, T1::Model, T2::Model, T3::Model, T4::Model, T5::Model, T6::Model, T7::Model, T8::Model);

    open spec fn model(self) -> (T0::Model, T1::Model, T2::Model, T3::Model, T4::Model, T5::Model, T6::Model, T7::Model, T8::Model) {
        (self.0.model(), self.1.model(), self.2.model(), self.3.model(), self.4.model(), self.5.model(), self.6.model(), self.7.model(), self.8.model())
    }

    open spec fn spec_read(s: StreamView, endian: Endian, args: ()) -> Result<
        ((T0::Model, T1::Model, T2::Model, T3::Model, T4::Model, T5::Model, T6::Model, T7::Model, T8::Model), int),
        Error,
    > {
        match T0::spec_read(s, endian, ()) {
            Err(e) => Err(e),
            Ok((m0, p0)) => {
                match T1::spec_read(StreamView { data: s.data, pos: p0 }, endian, ()) {
                    Err(e) => Err(e),
                    Ok((m1, p1)) => {
                        match T2::spec_read(StreamView { data: s.data, pos: p1 }, endian, ()) {
                            Err(e) => Err(e),
                            Ok((m2, p2)) => {
                                match T3::spec_read(StreamView { data: s.data, pos: p2 }, endian, ()) {
                                    Err(e) => Err(e),
                                    Ok((m3, p3)) => {
                                        match T4::spec_read(StreamView { data: s.data, pos: p3 }, endian, ()) {
                                            Err(e) => Err(e),
                                            Ok((m4, p4)) => {
                                                match T5::spec_read(StreamView { data: s.data, pos: p4 }, endian, ()) {
                                                    Err(e) => Err(e),
                                                    Ok((m5, p5)) => {
                                                        match T6::spec_read(StreamView { data: s.data, pos: p5 }, endian, ()) {
                                                            Err(e) => Err(e),
                                                            Ok((m6, p6)) => {
                                                                match T7::spec_read(StreamView { data: s.data, pos: p6 }, endian, ()) {
                                                                    Err(e) => Err(e),
                                                                    Ok((m7, p7)) => {
                                                                        match T8::spec_read(StreamView { data: s.data, pos: p7 }, endian, ()) {
                                                                            Err(e) => Err(e),
                                                                            Ok((m8, p8)) => Ok(((m0, m1, m2, m3, m4, m5, m6, m7, m8), p8)),
                                                                        }
                                                                    },
                                                                }
                                                            },
                                                        }
                                                    },
                                                }
                                            },
                                        }
                                    },
                                }
                            },
                        }
                    },
                }
            },
        }
    }

    open spec fn spec_after(m: (T0::Model, T1::Model, T2::Model, T3::Model, T4::Model, T5::Model, T6::Model, T7::Model, T8::Model), s: StreamView, endian: Endian, args: ()) -> Result<
        ((T0::Model, T1::Model, T2::Model, T3::Model, T4::Model, T5::Model, T6::Model, T7::Model, T8::Model), int),
        Error,
    > {
        match T0::spec_after(m.0, s, endian, ()) {
            Err(e) => Err(e),
            Ok((m0, p0)) => {
                match T1::spec_after(m.1, StreamView { data: s.data, pos: p0 }, endian, ()) {
                    Err(e) => Err(e),
                    Ok((m1, p1)) => {
                        match T2::spec_after(m.2, StreamView { data: s.data, pos: p1 }, endian, ()) {
                            Err(e) => Err(e),
                            Ok((m2, p2)) => {
                                match T3::spec_after(m.3, StreamView { data: s.data, pos: p2 }, endian, ()) {
                                    Err(e) => Err(e),
                                    Ok((m3, p3)) => {
                                        match T4::spec_after(m.4, StreamView { data: s.data, pos: p3 }, endian, ()) {
                                            Err(e) => Err(e),
                                            Ok((m4, p4)) => {
                                                match T5::spec_after(m.5, StreamView { data: s.data, pos: p4 }, endian, ()) {
                                                    Err(e) => Err(e),
                                                    Ok((m5, p5)) => {
                                                        match T6::spec_after(m.6, StreamView { data: s.data, pos: p5 }, endian, ()) {
                                                            Err(e) => Err(e),
                                                            Ok((m6, p6)) => {
                                                                match T7::spec_after(m.7, StreamView { data: s.data, pos: p6 }, endian, ()) {
                                                                    Err(e) => Err(e),
                                                                    Ok((m7, p7)) => {
                                                                        match T8::spec_after(m.8, StreamView { data: s.data, pos: p7 }, endian, ()) {
                                                                            Err(e) => Err(e),
                                                                            Ok((m8, p8)) => Ok(((m0, m1, m2, m3, m4, m5, m6, m7, m8), p8)),
                                                                        }
                                                                    },
                                                                }
                                                            },
                                                        }
                                                    },
                                                }
                                            },
                                        }
                                    },
                                }
                            },
                        }
                    },
                }
            },
        }
    }

    open spec fn restores_on_failure() -> bool {
        false
    }

    fn read_options(reader: &mut Cursor, options: &ReadOptions, args: ()) -> (r: BinResult<
        (T0, T1, T2, T3, T4, T5, T6, T7, T8),
    >) {
        proof {
            assert(!Self::restores_on_failure());
        }
        let v0 = match T0::read_options(reader, options, ()) {
            Ok(v) => v,
            Err(e) => {
                return Err(e);
            },
        };
        let v1 = match T1::read_options(reader, options, ()) {
            Ok(v) => v,
            Err(e) => {
                return Err(e);
            },
        };
        let v2 = match T2::read_options(reader, options, ()) {
            Ok(v) => v,
            Err(e) => {
                return Err(e);
            },
        };
        let v3 = match T3::read_options(reader, options, ()) {
            Ok(v) => v,
            Err(e) => {
                return Err(e);
            },
        };
        let v4 = match T4::read_options(reader, options, ()) {
            Ok(v) => v,
            Err(e) => {
                return Err(e);
            },
        };
        let v5 = match T5::read_options(reader, options, ()) {
            Ok(v) => v,
            Err(e) => {
                return Err(e);
            },
        };
        let v6 = match T6::read_options(reader, options, ()) {
            Ok(v) => v,
            Err(e) => {
                return Err(e);
            },
        };
        let v7 = match T7::read_options(reader, options, ()) {
            Ok(v) => v,
            Err(e) => {
                return Err(e);
            },
        };
        let v8 = match T8::read_options(reader, options, ()) {
            Ok(v) => v,
            Err(e) => {
                return Err(e);
            },
        };
        Ok((v0, v1, v2, v3, v4, v5, v6, v7, v8))
    }

    fn after_parse(self, reader: &mut Cursor, options: &ReadOptions, args: ()) -> (r: BinResult<
        (T0, T1, T2, T3, T4, T5, T6, T7, T8),
    >) {
        let (x0, x1, x2, x3, x4, x5, x6, x7, x8) = self;
        let v0 = match x0.after_parse(reader, options, ()) {
            Ok(v) => v,
            Err(e) => {
                return Err(e);
            },
        };
        let v1 = match x1.after_parse(reader, options, ()) {
            Ok(v) => v,
            Err(e) => {
                return Err(e);
            },
        };
        let v2 = match x2.after_parse(reader, options, ()) {
            Ok(v) => v,
            Err(e) => {
                return Err(e);
            },
        };
        let v3 = match x3.after_parse(reader, options, ()) {
            Ok(v) => v,
            Err(e) => {
                return Err(e);
            },
        };
        let v4 = match x4.after_parse(reader, options, ()) {
            Ok(v) => v,
            Err(e) => {
                return Err(e);
            },
        };
        let v5 = match x5.after_parse(reader, options, ()) {
            Ok(v) => v,
            Err(e) => {
                return Err(e);
            },
        };
        let v6 = match x6.after_parse(reader, options, ()) {
            Ok(v) => v,
            Err(e) => {
                return Err(e);
            },
        };
        let v7 = match x7.after_parse(reader, options, ()) {
            Ok(v) => v,
            Err(e) => {
                return Err(e);
            },
        };
        let v8 = match x8.after_parse(reader, options, ()) {
            Ok(v) => v,
            Err(e) => {
                return Err(e);
            },
        };
        Ok((v0, v1, v2, v3, v4, v5, v6, v7, v8))
    }
}

impl<T0: BinRead<Args = ()>, T1: BinRead<Args = ()>, T2: BinRead<Args = ()>, T3: BinRead<Args = ()>, T4: BinRead<Args = ()>, T5: BinRead<Args = ()>, T6: BinRead<Args = ()>, T7: BinRead<Args = ()>, T8: BinRead<Args = ()>, T9: BinRead<Args = ()>> BinRead for (T0, T1, T2, T3, T4, T5, T6, T7, T8, T9) {
    type Args = ();

    type Model = (T0::Model, T1::Model, T2::Model, T3::Model, T4::Model, T5::Model, T6::Model, T7::Model, T8::Model, T9::Model);

    open spec fn model(self) -> (T0::Model, T1::Model, T2::Model, T3::Model, T4::Model, T5::Model, T6::Model, T7::Model, T8::Model, T9::Model) {
        (self.0.model(), self.1.model(), self.2.model(), self.3.model(), self.4.model(), self.5.model(), self.6.model(), self.7.model(), self.8.model(), self.9.model())
    }

    open spec fn spec_read(s: StreamView, endian: Endian, args: ()) -> Result<
        ((T0::Model, T1::Model, T2::Model, T3::Model, T4::Model, T5::Model, T6::Model, T7::Model, T8::Model, T9::Model), int),
        Error,
    > {
        match T0::spec_read(s, endian, ()) {
            Err(e) => Err(e),
            Ok((m0, p0)) => {
                match T1::spec_read(StreamView { data: s.data, pos: p0 }, endian, ()) {
                    Err(e) => Err(e),
                    Ok((m1, p1)) => {
                        match T2::spec_read(StreamView { data: s.data, pos: p1 }, endian, ()) {
                            Err(e) => Err(e),
                            Ok((m2, p2)) => {
                                match T3::spec_read(StreamView { data: s.data, pos: p2 }, endian, ()) {
                                    Err(e) => Err(e),
                                    Ok((m3, p3)) => {
                                        match T4::spec_read(StreamView { data: s.data, pos: p3 }, endian, ()) {
                                            Err(e) => Err(e),
                                            Ok((m4, p4)) => {
                                                match T5::spec_read(StreamView { data: s.data, pos: p4 }, endian, ()) {
                                                    Err(e) => Err(e),
                                                    Ok((m5, p5)) => {
                                                        match T6::spec_read(StreamView { data: s.data, pos: p5 }, endian, ()) {
                                                            Err(e) => Err(e),
                                                            Ok((m6, p6)) => {
                                                                match T7::spec_read(StreamView { data: s.data, pos: p6 }, endian, ()) {
                                                                    Err(e) => Err(e),
                                                                    Ok((m7, p7)) => {
                                                                        match T8::spec_read(StreamView { data: s.data, pos: p7 }, endian, ()) {
                                                                            Err(e) => Err(e),
                                                                            Ok((m8, p8)) => {
                                                                                match T9::spec_read(StreamView { data: s.data, pos: p8 }, endian, ()) {
                                                                                    Err(e) => Err(e),
                                                                                    Ok((m9, p9)) => Ok(((m0, m1, m2, m3, m4, m5, m6, m7, m8, m9), p9)),
                                                                                }
                                                                            },
                                                                        }
                                                                    },
                                                                }
                                                            },
                                                        }
                                                    },
                                                }
                                            },
                                        }
                                    },
                                }
                            },
                        }
                    },
                }
            },
        }
    }

    open spec fn spec_after(m: (T0::Model, T1::Model, T2::Model, T3::Model, T4::Model, T5::Model, T6::Model, T7::Model, T8::Model, T9::Model), s: StreamView, endian: Endian, args: ()) -> Result<
        ((T0::Model, T1::Model, T2::Model, T3::Model, T4::Model, T5::Model, T6::Model, T7::Model, T8::Model, T9::Model), int),
        Error,
    > {
        match T0::spec_after(m.0, s, endian, ()) {
            Err(e) => Err(e),
            Ok((m0, p0)) => {
                match T1::spec_after(m.1, StreamView { data: s.data, pos: p0 }, endian, ()) {
                    Err(e) => Err(e),
                    Ok((m1, p1)) => {
                        match T2::spec_after(m.2, StreamView { data: s.data, pos: p1 }, endian, ()) {
                            Err(e) => Err(e),
                            Ok((m2, p2)) => {
                                match T3::spec_after(m.3, StreamView { data: s.data, pos: p2 }, endian, ()) {
                                    Err(e) => Err(e),
                                    Ok((m3, p3)) => {
                                        match T4::spec_after(m.4, StreamView { data: s.data, pos: p3 }, endian, ()) {
                                            Err(e) => Err(e),
                                            Ok((m4, p4)) => {
                                                match T5::spec_after(m.5, StreamView { data: s.data, pos: p4 }, endian, ()) {
                                                    Err(e) => Err(e),
                                                    Ok((m5, p5)) => {
                                                        match T6::spec_after(m.6, StreamView { data: s.data, pos: p5 }, endian, ()) {
                                                            Err(e) => Err(e),
                                                            Ok((m6, p6)) => {
                                                                match T7::spec_after(m.7, StreamView { data: s.data, pos: p6 }, endian, ()) {
                                                                    Err(e) => Err(e),
                                                                    Ok((m7, p7)) => {
                                                                        match T8::spec_after(m.8, StreamView { data: s.data, pos: p7 }, endian, ()) {
                                                                            Err(e) => Err(e),
                                                                            Ok((m8, p8)) => {
                                                                                match T9::spec_after(m.9, StreamView { data: s.data, pos: p8 }, endian, ()) {
                                                                                    Err(e) => Err(e),
                                                                                    Ok((m9, p9)) => Ok(((m0, m1, m2, m3, m4, m5, m6, m7, m8, m9), p9)),
                                                                                }
                                                                            },
                                                                        }
                                                                    },
                                                                }
                                                            },
                                                        }
                                                    },
                                                }
                                            },
                                        }
                                    },
                                }
                            },
                        }
                    },
                }
            },
        }
    }

    open spec fn restores_on_failure() -> bool {
        false
    }

    fn read_options(reader: &mut Cursor, options: &ReadOptions, args: ()) -> (r: BinResult<
        (T0, T1, T2, T3, T4, T5, T6, T7, T8, T9),
    >) {
        proof {
            assert(!Self::restores_on_failure());
        }
        let v0 = match T0::read_options(reader, options, ()) {
            Ok(v) => v,
            Err(e) => {
                return Err(e);
            },
        };
        let v1 = match T1::read_options(reader, options, ()) {
            Ok(v) => v,
            Err(e) => {
                return Err(e);
            },
        };
        let v2 = match T2::read_options(reader, options, ()) {
            Ok(v) => v,
            Err(e) => {
                return Err(e);
            },
        };
        let v3 = match T3::read_options(reader, options, ()) {
            Ok(v) => v,
            Err(e) => {
                return Err(e);
            },
        };
        let v4 = match T4::read_options(reader, options, ()) {
            Ok(v) => v,
            Err(e) => {
                return Err(e);
            },
        };
        let v5 = match T5::read_options(reader, options, ()) {
            Ok(v) => v,
            Err(e) => {
                return Err(e);
            },
        };
        let v6 = match T6::read_options(reader, options, ()) {
            Ok(v) => v,
            Err(e) => {
                return Err(e);
            },
        };
        let v7 = match T7::read_options(reader, options, ()) {
            Ok(v) => v,
            Err(e) => {
                return Err(e);
            },
        };
        let v8 = match T8::read_options(reader, options, ()) {
            Ok(v) => v,
            Err(e) => {
                return Err(e);
            },
        };
        let v9 = match T9::read_options(reader, options, ()) {
            Ok(v) => v,
            Err(e) => {
                return Err(e);
            },
        };
        Ok((v0, v1, v2, v3, v4, v5, v6, v7, v8, v9))
    }

    fn after_parse(self, reader: &mut Cursor, options: &ReadOptions, args: ()) -> (r: BinResult<
        (T0, T1, T2, T3, T4, T5, T6, T7, T8, T9),
    >) {
        let (x0, x1, x2, x3, x4, x5, x6, x7, x8, x9) = self;
        let v0 = match x0.after_parse(reader, options, ()) {
            Ok(v) => v,
            Err(e) => {
                return Err(e);
            },
        };
        let v1 = match x1.after_parse(reader, options, ()) {
            Ok(v) => v,
            Err(e) => {
                return Err(e);
            },
        };
        let v2 = match x2.after_parse(reader, options, ()) {
            Ok(v) => v,
            Err(e) => {
                return Err(e);
            },
        };
        let v3 = match x3.after_parse(reader, options, ()) {
            Ok(v) => v,
            Err(e) => {
                return Err(e);
            },
        };
        let v4 = match x4.after_parse(reader, options, ()) {
            Ok(v) => v,
            Err(e) => {
                return Err(e);
            },
        };
        let v5 = match x5.after_parse(reader, options, ()) {
            Ok(v) => v,
            Err(e) => {
                return Err(e);
            },
        };
        let v6 = match x6.after_parse(reader, options, ()) {
            Ok(v) => v,
            Err(e) => {
                return Err(e);
            },
        };
        let v7 = match x7.after_parse(reader, options, ()) {
            Ok(v) => v,
            Err(e) => {
                return Err(e);
            },
        };
        let v8 = match x8.after_parse(reader, options, ()) {
            Ok(v) => v,
            Err(e) => {
                return Err(e);
            },
        };
        let v9 = match x9.after_parse(reader, options, ()) {
            Ok(v) => v,
            Err(e) => {
                return Err(e);
            },
        };
        Ok((v0, v1, v2, v3, v4, v5, v6, v7, v8, v9))
    }
}

impl<T0: BinRead<Args = ()>, T1: BinRead<Args = ()>, T2: BinRead<Args = ()>, T3: BinRead<Args = ()>, T4: BinRead<Args = ()>, T5: BinRead<Args = ()>, T6: BinRead<Args = ()>, T7: BinRead<Args = ()>, T8: BinRead<Args = ()>, T9: BinRead<Args = ()>, T10: BinRead<Args = ()>> BinRead for (T0, T1, T2, T3, T4, T5, T6, T7, T8, T9, T10) {
    type Args = ();

    type Model = (T0::Model, T1::Model, T2::Model, T3::Model, T4::Model, T5::Model, T6::Model, T7::Model, T8::Model, T9::Model, T10::Model);

    open spec fn model(self) -> (T0::Model, T1::Model, T2::Model, T3::Model, T4::Model, T5::Model, T6::Model, T7::Model, T8::Model, T9::Model, T10::Model) {
        (self.0.model(), self.1.model(), self.2.model(), self.3.model(), self.4.model(), self.5.model(), self.6.model(), self.7.model(), self.8.model(), self.9.model(), self.10.model())
    }

    open spec fn spec_read(s: StreamView, endian: Endian, args: ()) -> Result<
        ((T0::Model, T1::Model, T2::Model, T3::Model, T4::Model, T5::Model, T6::Model, T7::Model, T8::Model, T9::Model, T10::Model), int),
        Error,
    > {
        match T0::spec_read(s, endian, ()) {
            Err(e) => Err(e),
            Ok((m0, p0)) => {
                match T1::spec_read(StreamView { data: s.data, pos: p0 }, endian, ()) {
                    Err(e) => Err(e),
                    Ok((m1, p1)) => {
                        match T2::spec_read(StreamView { data: s.data, pos: p1 }, endian, ()) {
                            Err(e) => Err(e),
                            Ok((m2, p2)) => {
                                match T3::spec_read(StreamView { data: s.data, pos: p2 }, endian, ()) {
                                    Err(e) => Err(e),
                                    Ok((m3, p3)) => {
                                        match T4::spec_read(StreamView { data: s.data, pos: p3 }, endian, ()) {
                                            Err(e) => Err(e),
                                            Ok((m4, p4)) => {
                                                match T5::spec_read(StreamView { data: s.data, pos: p4 }, endian, ()) {
                                                    Err(e) => Err(e),
                                                    Ok((m5, p5)) => {
                                                        match T6::spec_read(StreamView { data: s.data, pos: p5 }, endian, ()) {
                                                            Err(e) => Err(e),
                                                            Ok((m6, p6)) => {
                                                                match T7::spec_read(StreamView { data: s.data, pos: p6 }, endian, ()) {
                                                                    Err(e) => Err(e),
                                                                    Ok((m7, p7)) => {
                                                                        match T8::spec_read(StreamView { data: s.data, pos: p7 }, endian, ()) {
                                                                            Err(e) => Err(e),
                                                                            Ok((m8, p8)) => {
                                                                                match T9::spec_read(StreamView { data: s.data, pos: p8 }, endian, ()) {
                                                                                    Err(e) => Err(e),
                                                                                    Ok((m9, p9)) => {
                                                                                        match T10::spec_read(StreamView { data: s.data, pos: p9 }, endian, ()) {
                                                                                            Err(e) => Err(e),
                                                                                            Ok((m10, p10)) => Ok(((m0, m1, m2, m3, m4, m5, m6, m7, m8, m9, m10), p10)),
                                                                                        }
                                                                                    },
                                                                                }
                                                                            },
                                                                        }
                                                                    },
                                                                }
                                                            },
                                                        }
                                                    },
                                                }
                                            },
                                        }
                                    },
                                }
                            },
                        }
                    },
                }
            },
        }
    }

    open spec fn spec_after(m: (T0::Model, T1::Model, T2::Model, T3::Model, T4::Model, T5::Model, T6::Model, T7::Model, T8::Model, T9::Model, T10::Model), s: StreamView, endian: Endian, args: ()) -> Result<
        ((T0::Model, T1::Model, T2::Model, T3::Model, T4::Model, T5::Model, T6::Model, T7::Model, T8::Model, T9::Model, T10::Model), int),
        Error,
    > {
        match T0::spec_after(m.0, s, endian, ()) {
            Err(e) => Err(e),
            Ok((m0, p0)) => {
                match T1::spec_after(m.1, StreamView { data: s.data, pos: p0 }, endian, ()) {
                    Err(e) => Err(e),
                    Ok((m1, p1)) => {
                        match T2::spec_after(m.2, StreamView { data: s.data, pos: p1 }, endian, ()) {
                            Err(e) => Err(e),
                            Ok((m2, p2)) => {
                                match T3::spec_after(m.3, StreamView { data: s.data, pos: p2 }, endian, ()) {
                                    Err(e) => Err(e),
                                    Ok((m3, p3)) => {
                                        match T4::spec_after(m.4, StreamView { data: s.data, pos: p3 }, endian, ()) {
                                            Err(e) => Err(e),
                                            Ok((m4, p4)) => {
                                                match T5::spec_after(m.5, StreamView { data: s.data, pos: p4 }, endian, ()) {
                                                    Err(e) => Err(e),
                                                    Ok((m5, p5)) => {
                                                        match T6::spec_after(m.6, StreamView { data: s.data, pos: p5 }, endian, ()) {
                                                            Err(e) => Err(e),
                                                            Ok((m6, p6)) => {
                                                                match T7::spec_after(m.7, StreamView { data: s.data, pos: p6 }, endian, ()) {
                                                                    Err(e) => Err(e),
                                                                    Ok((m7, p7)) => {
                                                                        match T8::spec_after(m.8, StreamView { data: s.data, pos: p7 }, endian, ()) {
                                                                            Err(e) => Err(e),
                                                                            Ok((m8, p8)) => {
                                                                                match T9::spec_after(m.9, StreamView { data: s.data, pos: p8 }, endian, ()) {
                                                                                    Err(e) => Err(e),
                                                                                    Ok((m9, p9)) => {
                                                                                        match T10::spec_after(m.10, StreamView { data: s.data, pos: p9 }, endian, ()) {
                                                                                            Err(e) => Err(e),
                                                                                            Ok((m10, p10)) => Ok(((m0, m1, m2, m3, m4, m5, m6, m7, m8, m9, m10), p10)),
                                                                                        }
                                                                                    },
                                                                                }
                                                                            },
                                                                        }
                                                                    },
                                                                }
                                                            },
                                                        }
                                                    },
                                                }
                                            },
                                        }
                                    },
                                }
                            },
                        }
                    },
                }
            },
        }
    }

    open spec fn restores_on_failure() -> bool {
        false
    }

    fn read_options(reader: &mut Cursor, options: &ReadOptions, args: ()) -> (r: BinResult<
        (T0, T1, T2, T3, T4, T5, T6, T7, T8, T9, T10),
    >) {
        proof {
            assert(!Self::restores_on_failure());
        }
        let v0 = match T0::read_options(reader, options, ()) {
            Ok(v) => v,
            Err(e) => {
                return Err(e);
            },
        };
        let v1 = match T1::read_options(reader, options, ()) {
            Ok(v) => v,
            Err(e) => {
                return Err(e);
            },
        };
        let v2 = match T2::read_options(reader, options, ()) {
            Ok(v) => v,
            Err(e) => {
                return Err(e);
            },
        };
        let v3 = match T3::read_options(reader, options, ()) {
            Ok(v) => v,
            Err(e) => {
                return Err(e);
            },
        };
        let v4 = match T4::read_options(reader, options, ()) {
            Ok(v) => v,
            Err(e) => {
                return Err(e);
            },
        };
        let v5 = match T5::read_options(reader, options, ()) {
            Ok(v) => v,
            Err(e) => {
                return Err(e);
            },
        };
        let v6 = match T6::read_options(reader, options, ()) {
            Ok(v) => v,
            Err(e) => {
                return Err(e);
            },
        };
        let v7 = match T7::read_options(reader, options, ()) {
            Ok(v) => v,
            Err(e) => {
                return Err(e);
            },
        };
        let v8 = match T8::read_options(reader, options, ()) {
            Ok(v) => v,
            Err(e) => {
                return Err(e);
            },
        };
        let v9 = match T9::read_options(reader, options, ()) {
            Ok(v) => v,
            Err(e) => {
                return Err(e);
            },
        };
        let v10 = match T10::read_options(reader, options, ()) {
            Ok(v) => v,
            Err(e) => {
                return Err(e);
            },
        };
        Ok((v0, v1, v2, v3, v4, v5, v6, v7, v8, v9, v10))
    }

    fn after_parse(self, reader: &mut Cursor, options: &ReadOptions, args: ()) -> (r: BinResult<
        (T0, T1, T2, T3, T4, T5, T6, T7, T8, T9, T10),
    >) {
        let (x0, x1, x2, x3, x4, x5, x6, x7, x8, x9, x10) = self;
        let v0 = match x0.after_parse(reader, options, ()) {
            Ok(v) => v,
            Err(e) => {
                return Err(e);
            },
        };
        let v1 = match x1.after_parse(reader, options, ()) {
            Ok(v) => v,
            Err(e) => {
                return Err(e);
            },
        };
        let v2 = match x2.after_parse(reader, options, ()) {
            Ok(v) => v,
            Err(e) => {
                return Err(e);
            },
        };
        let v3 = match x3.after_parse(reader, options, ()) {
            Ok(v) => v,
            Err(e) => {
                return Err(e);
            },
        };
        let v4 = match x4.after_parse(reader, options, ()) {
            Ok(v) => v,
            Err(e) => {
                return Err(e);
            },
        };
        let v5 = match x5.after_parse(reader, options, ()) {
            Ok(v) => v,
            Err(e) => {
                return Err(e);
            },
        };
        let v6 = match x6.after_parse(reader, options, ()) {
            Ok(v) => v,
            Err(e) => {
                return Err(e);
            },
        };
        let v7 = match x7.after_parse(reader, options, ()) {
            Ok(v) => v,
            Err(e) => {
                return Err(e);
            },
        };
        let v8 = match x8.after_parse(reader, options, ()) {
            Ok(v) => v,
            Err(e) => {
                return Err(e);
            },
        };
        let v9 = match x9.after_parse(reader, options, ()) {
            Ok(v) => v,
            Err(e) => {
                return Err(e);
            },
        };
        let v10 = match x10.after_parse(reader, options, ()) {
            Ok(v) => v,
            Err(e) => {
                return Err(e);
            },
        };
        Ok((v0, v1, v2, v3, v4, v5, v6, v7, v8, v9, v10))
    }
}

impl<T0: BinRead<Args = ()>, T1: BinRead<Args = ()>, T2: BinRead<Args = ()>, T3: BinRead<Args = ()>, T4: BinRead<Args = ()>, T5: BinRead<Args = ()>, T6: BinRead<Args = ()>, T7: BinRead<Args = ()>, T8: BinRead<Args = ()>, T9: BinRead<Args = ()>, T10: BinRead<Args = ()>, T11: BinRead<Args = ()>> BinRead for (T0, T1, T2, T3, T4, T5, T6, T7, T8, T9, T10, T11) {
    type Args = ();

    type Model = (T0::Model, T1::Model, T2::Model, T3::Model, T4::Model, T5::Model, T6::Model, T7::Model, T8::Model, T9::Model, T10::Model, T11::Model);

    open spec fn model(self) -> (T0::Model, T1::Model, T2::Model, T3::Model, T4::Model, T5::Model, T6::Model, T7::Model, T8::Model, T9::Model, T10::Model, T11::Model) {
        (self.0.model(), self.1.model(), self.2.model(), self.3.model(), self.4.model(), self.5.model(), self.6.model(), self.7.model(), self.8.model(), self.9.model(), self.10.model(), self.11.model())
    }

    open spec fn spec_read(s: StreamView, endian: Endian, args: ()) -> Result<
        ((T0::Model, T1::Model, T2::Model, T3::Model, T4::Model, T5::Model, T6::Model, T7::Model, T8::Model, T9::Model, T10::Model, T11::Model), int),
        Error,
    > {
        match T0::spec_read(s, endian, ()) {
            Err(e) => Err(e),
            Ok((m0, p0)) => {
                match T1::spec_read(StreamView { data: s.data, pos: p0 }, endian, ()) {
                    Err(e) => Err(e),
                    Ok((m1, p1)) => {
                        match T2::spec_read(StreamView { data: s.data, pos: p1 }, endian, ()) {
                            Err(e) => Err(e),
                            Ok((m2, p2)) => {
                                match T3::spec_read(StreamView { data: s.data, pos: p2 }, endian, ()) {
                                    Err(e) => Err(e),
                                    Ok((m3, p3)) => {
                                        match T4::spec_read(StreamView { data: s.data, pos: p3 }, endian, ()) {
                                            Err(e) => Err(e),
                                            Ok((m4, p4)) => {
                                                match T5::spec_read(StreamView { data: s.data, pos: p4 }, endian, ()) {
                                                    Err(e) => Err(e),
                                                    Ok((m5, p5)) => {
                                                        match T6::spec_read(StreamView { data: s.data, pos: p5 }, endian, ()) {
                                                            Err(e) => Err(e),
                                                            Ok((m6, p6)) => {
                                                                match T7::spec_read(StreamView { data: s.data, pos: p6 }, endian, ()) {
                                                                    Err(e) => Err(e),
                                                                    Ok((m7, p7)) => {
                                                                        match T8::spec_read(StreamView { data: s.data, pos: p7 }, endian, ()) {
                                                                            Err(e) => Err(e),
                                                                            Ok((m8, p8)) => {
                                                                                match T9::spec_read(StreamView { data: s.data, pos: p8 }, endian, ()) {
                                                                                    Err(e) => Err(e),
                                                                                    Ok((m9, p9)) => {
                                                                                        match T10::spec_read(StreamView { data: s.data, pos: p9 }, endian, ()) {
                                                                                            Err(e) => Err(e),
                                                                                            Ok((m10, p10)) => {
                                                                                                match T11::spec_read(StreamView { data: s.data, pos: p10 }, endian, ()) {
                                                                                                    Err(e) => Err(e),
                                                                                                    Ok((m11, p11)) => Ok(((m0, m1, m2, m3, m4, m5, m6, m7, m8, m9, m10, m11), p11)),
                                                                                                }
                                                                                            },
                                                                                        }
                                                                                    },
                                                                                }
                                                                            },
                                                                        }
                                                                    },
                                                                }
                                                            },
                                                        }
                                                    },
                                                }
                                            },
                                        }
                                    },
                                }
                            },
                        }
                    },
                }
            },
        }
    }

    open spec fn spec_after(m: (T0::Model, T1::Model, T2::Model, T3::Model, T4::Model, T5::Model, T6::Model, T7::Model, T8::Model, T9::Model, T10::Model, T11::Model), s: StreamView, endian: Endian, args: ()) -> Result<
        ((T0::Model, T1::Model, T2::Model, T3::Model, T4::Model, T5::Model, T6::Model, T7::Model, T8::Model, T9::Model, T10::Model, T11::Model), int),
        Error,
    > {
        match T0::spec_after(m.0, s, endian, ()) {
            Err(e) => Err(e),
            Ok((m0, p0)) => {
                match T1::spec_after(m.1, StreamView { data: s.data, pos: p0 }, endian, ()) {
                    Err(e) => Err(e),
                    Ok((m1, p1)) => {
                        match T2::spec_after(m.2, StreamView { data: s.data, pos: p1 }, endian, ()) {
                            Err(e) => Err(e),
                            Ok((m2, p2)) => {
                                match T3::spec_after(m.3, StreamView { data: s.data, pos: p2 }, endian, ()) {
                                    Err(e) => Err(e),
                                    Ok((m3, p3)) => {
                                        match T4::spec_after(m.4, StreamView { data: s.data, pos: p3 }, endian, ()) {
                                            Err(e) => Err(e),
                                            Ok((m4, p4)) => {
                                                match T5::spec_after(m.5, StreamView { data: s.data, pos: p4 }, endian, ()) {
                                                    Err(e) => Err(e),
                                                    Ok((m5, p5)) => {
                                                        match T6::spec_after(m.6, StreamView { data: s.data, pos: p5 }, endian, ()) {
                                                            Err(e) => Err(e),
                                                            Ok((m6, p6)) => {
                                                                match T7::spec_after(m.7, StreamView { data: s.data, pos: p6 }, endian, ()) {
                                                                    Err(e) => Err(e),
                                                                    Ok((m7, p7)) => {
                                                                        match T8::spec_after(m.8, StreamView { data: s.data, pos: p7 }, endian, ()) {
                                                                            Err(e) => Err(e),
                                                                            Ok((m8, p8)) => {
                                                                                match T9::spec_after(m.9, StreamView { data: s.data, pos: p8 }, endian, ()) {
                                                                                    Err(e) => Err(e),
                                                                                    Ok((m9, p9)) => {
                                                                                        match T10::spec_after(m.10, StreamView { data: s.data, pos: p9 }, endian, ()) {
                                                                                            Err(e) => Err(e),
                                                                                            Ok((m10, p10)) => {
                                                                                                match T11::spec_after(m.11, StreamView { data: s.data, pos: p10 }, endian, ()) {
                                                                                                    Err(e) => Err(e),
                                                                                                    Ok((m11, p11)) => Ok(((m0, m1, m2, m3, m4, m5, m6, m7, m8, m9, m10, m11), p11)),
                                                                                                }
                                                                                            },
                                                                                        }
                                                                                    },
                                                                                }
                                                                            },
                                                                        }
                                                                    },
                                                                }
                                                            },
                                                        }
                                                    },
                                                }
                                            },
                                        }
                                    },
                                }
                            },
                        }
                    },
                }
            },
        }
    }

    open spec fn restores_on_failure() -> bool {
        false
    }

    fn read_options(reader: &mut Cursor, options: &ReadOptions, args: ()) -> (r: BinResult<
        (T0, T1, T2, T3, T4, T5, T6, T7, T8, T9, T10, T11),
    >) {
        proof {
            assert(!Self::restores_on_failure());
        }
        let v0 = match T0::read_options(reader, options, ()) {
            Ok(v) => v,
            Err(e) => {
                return Err(e);
            },
        };
        let v1 = match T1::read_options(reader, options, ()) {
            Ok(v) => v,
            Err(e) => {
                return Err(e);
            },
        };
        let v2 = match T2::read_options(reader, options, ()) {
            Ok(v) => v,
            Err(e) => {
                return Err(e);
            },
        };
        let v3 = match T3::read_options(reader, options, ()) {
            Ok(v) => v,
            Err(e) => {
                return Err(e);
            },
        };
        let v4 = match T4::read_options(reader, options, ()) {
            Ok(v) => v,
            Err(e) => {
                return Err(e);
            },
        };
        let v5 = match T5::read_options(reader, options, ()) {
            Ok(v) => v,
            Err(e) => {
                return Err(e);
            },
        };
        let v6 = match T6::read_options(reader, options, ()) {
            Ok(v) => v,
            Err(e) => {
                return Err(e);
            },
        };
        let v7 = match T7::read_options(reader, options, ()) {
            Ok(v) => v,
            Err(e) => {
                return Err(e);
            },
        };
        let v8 = match T8::read_options(reader, options, ()) {
            Ok(v) => v,
            Err(e) => {
                return Err(e);
            },
        };
        let v9 = match T9::read_options(reader, options, ()) {
            Ok(v) => v,
            Err(e) => {
                return Err(e);
            },
        };
        let v10 = match T10::read_options(reader, options, ()) {
            Ok(v) => v,
            Err(e) => {
                return Err(e);
            },
        };
        let v11 = match T11::read_options(reader, options, ()) {
            Ok(v) => v,
            Err(e) => {
                return Err(e);
            },
        };
        Ok((v0, v1, v2, v3, v4, v5, v6, v7, v8, v9, v10, v11))
    }

    fn after_parse(self, reader: &mut Cursor, options: &ReadOptions, args: ()) -> (r: BinResult<
        (T0, T1, T2, T3, T4, T5, T6, T7, T8, T9, T10, T11),
    >) {
        let (x0, x1, x2, x3, x4, x5, x6, x7, x8, x9, x10, x11) = self;
        let v0 = match x0.after_parse(reader, options, ()) {
            Ok(v) => v,
            Err(e) => {
                return Err(e);
            },
        };
        let v1 = match x1.after_parse(reader, options, ()) {
            Ok(v) => v,
            Err(e) => {
                return Err(e);
            },
        };
        let v2 = match x2.after_parse(reader, options, ()) {
            Ok(v) => v,
            Err(e) => {
                return Err(e);
            },
        };
        let v3 = match x3.after_parse(reader, options, ()) {
            Ok(v) => v,
            Err(e) => {
                return Err(e);
            },
        };
        let v4 = match x4.after_parse(reader, options, ()) {
            Ok(v) => v,
            Err(e) => {
                return Err(e);
            },
        };
        let v5 = match x5.after_parse(reader, options, ()) {
            Ok(v) => v,
            Err(e) => {
                return Err(e);
            },
        };
        let v6 = match x6.after_parse(reader, options, ()) {
            Ok(v) => v,
            Err(e) => {
                return Err(e);
            },
        };
        let v7 = match x7.after_parse(reader, options, ()) {
            Ok(v) => v,
            Err(e) => {
                return Err(e);
            },
        };
        let v8 = match x8.after_parse(reader, options, ()) {
            Ok(v) => v,
            Err(e) => {
                return Err(e);
            },
        };
        let v9 = match x9.after_parse(reader, options, ()) {
            Ok(v) => v,
            Err(e) => {
                return Err(e);
            },
        };
        let v10 = match x10.after_parse(reader, options, ()) {
            Ok(v) => v,
            Err(e) => {
                return Err(e);
            },
        };
        let v11 = match x11.after_parse(reader, options, ()) {
            Ok(v) => v,
            Err(e) => {
                return Err(e);
            },
        };
        Ok((v0, v1, v2, v3, v4, v5, v6, v7, v8, v9, v10, v11))
    }
}

impl<T0: BinRead<Args = ()>, T1: BinRead<Args = ()>, T2: BinRead<Args = ()>, T3: BinRead<Args = ()>, T4: BinRead<Args = ()>, T5: BinRead<Args = ()>, T6: BinRead<Args = ()>, T7: BinRead<Args = ()>, T8: BinRead<Args = ()>, T9: BinRead<Args = ()>, T10: BinRead<Args = ()>, T11: BinRead<Args = ()>, T12: BinRead<Args = ()>> BinRead for (T0, T1, T2, T3, T4, T5, T6, T7, T8, T9, T10, T11, T12) {
    type Args = ();

    type Model = (T0::Model, T1::Model, T2::Model, T3::Model, T4::Model, T5::Model, T6::Model, T7::Model, T8::Model, T9::Model, T10::Model, T11::Model, T12::Model);

    open spec fn model(self) -> (T0::Model, T1::Model, T2::Model, T3::Model, T4::Model, T5::Model, T6::Model, T7::Model, T8::Model, T9::Model, T10::Model, T11::Model, T12::Model) {
        (self.0.model(), self.1.model(), self.2.model(), self.3.model(), self.4.model(), self.5.model(), self.6.model(), self.7.model(), self.8.model(), self.9.model(), self.10.model(), self.11.model(), self.12.model())
    }

    open spec fn spec_read(s: StreamView, endian: Endian, args: ()) -> Result<
        ((T0::Model, T1::Model, T2::Model, T3::Model, T4::Model, T5::Model, T6::Model, T7::Model, T8::Model, T9::Model, T10::Model, T11::Model, T12::Model), int),
        Error,
    > {
        match T0::spec_read(s, endian, ()) {
            Err(e) => Err(e),
            Ok((m0, p0)) => {
                match T1::spec_read(StreamView { data: s.data, pos: p0 }, endian, ()) {
                    Err(e) => Err(e),
                    Ok((m1, p1)) => {
                        match T2::spec_read(StreamView { data: s.data, pos: p1 }, endian, ()) {
                            Err(e) => Err(e),
                            Ok((m2, p2)) => {
                                match T3::spec_read(StreamView { data: s.data, pos: p2 }, endian, ()) {
                                    Err(e) => Err(e),
                                    Ok((m3, p3)) => {
                                        match T4::spec_read(StreamView { data: s.data, pos: p3 }, endian, ()) {
                                            Err(e) => Err(e),
                                            Ok((m4, p4)) => {
                                                match T5::spec_read(StreamView { data: s.data, pos: p4 }, endian, ()) {
                                                    Err(e) => Err(e),
                                                    Ok((m5, p5)) => {
                                                        match T6::spec_read(StreamView { data: s.data, pos: p5 }, endian, ()) {
                                                            Err(e) => Err(e),
                                                            Ok((m6, p6)) => {
                                                                match T7::spec_read(StreamView { data: s.data, pos: p6 }, endian, ()) {
                                                                    Err(e) => Err(e),
                                                                    Ok((m7, p7)) => {
                                                                        match T8::spec_read(StreamView { data: s.data, pos: p7 }, endian, ()) {
                                                                            Err(e) => Err(e),
                                                                            Ok((m8, p8)) => {
                                                                                match T9::spec_read(StreamView { data: s.data, pos: p8 }, endian, ()) {
                                                                                    Err(e) => Err(e),
                                                                                    Ok((m9, p9)) => {
                                                                                        match T10::spec_read(StreamView { data: s.data, pos: p9 }, endian, ()) {
                                                                                            Err(e) => Err(e),
                                                                                            Ok((m10, p10)) => {
                                                                                                match T11::spec_read(StreamView { data: s.data, pos: p10 }, endian, ()) {
                                                                                                    Err(e) => Err(e),
                                                                                                    Ok((m11, p11)) => {
                                                                                                        match T12::spec_read(StreamView { data: s.data, pos: p11 }, endian, ()) {
                                                                                                            Err(e) => Err(e),
                                                                                                            Ok((m12, p12)) => Ok(((m0, m1, m2, m3, m4, m5, m6, m7, m8, m9, m10, m11, m12), p12)),
                                                                                                        }
                                                                                                    },
                                                                                                }
                                                                                            },
                                                                                        }
                                                                                    },
                                                                                }
                                                                            },
                                                                        }
                                                                    },
                                                                }
                                                            },
                                                        }
                                                    },
                                                }
                                            },
                                        }
                                    },
                                }
                            },
                        }
                    },
                }
            },
        }
    }

    open spec fn spec_after(m: (T0::Model, T1::Model, T2::Model, T3::Model, T4::Model, T5::Model, T6::Model, T7::Model, T8::Model, T9::Model, T10::Model, T11::Model, T12::Model), s: StreamView, endian: Endian, args: ()) -> Result<
        ((T0::Model, T1::Model, T2::Model, T3::Model, T4::Model, T5::Model, T6::Model, T7::Model, T8::Model, T9::Model, T10::Model, T11::Model, T12::Model), int),
        Error,
    > {
        match T0::spec_after(m.0, s, endian, ()) {
            Err(e) => Err(e),
            Ok((m0, p0)) => {
                match T1::spec_after(m.1, StreamView { data: s.data, pos: p0 }, endian, ()) {
                    Err(e) => Err(e),
                    Ok((m1, p1)) => {
                        match T2::spec_after(m.2, StreamView { data: s.data, pos: p1 }, endian, ()) {
                            Err(e) => Err(e),
                            Ok((m2, p2)) => {
                                match T3::spec_after(m.3, StreamView { data: s.data, pos: p2 }, endian, ()) {
                                    Err(e) => Err(e),
                                    Ok((m3, p3)) => {
                                        match T4::spec_after(m.4, StreamView { data: s.data, pos: p3 }, endian, ()) {
                                            Err(e) => Err(e),
                                            Ok((m4, p4)) => {
                                                match T5::spec_after(m.5, StreamView { data: s.data, pos: p4 }, endian, ()) {
                                                    Err(e) => Err(e),
                                                    Ok((m5, p5)) => {
                                                        match T6::spec_after(m.6, StreamView { data: s.data, pos: p5 }, endian, ()) {
                                                            Err(e) => Err(e),
                                                            Ok((m6, p6)) => {
                                                                match T7::spec_after(m.7, StreamView { data: s.data, pos: p6 }, endian, ()) {
                                                                    Err(e) => Err(e),
                                                                    Ok((m7, p7)) => {
                                                                        match T8::spec_after(m.8, StreamView { data: s.data, pos: p7 }, endian, ()) {
                                                                            Err(e) => Err(e),
                                                                            Ok((m8, p8)) => {
                                                                                match T9::spec_after(m.9, StreamView { data: s.data, pos: p8 }, endian, ()) {
                                                                                    Err(e) => Err(e),
                                                                                    Ok((m9, p9)) => {
                                                                                        match T10::spec_after(m.10, StreamView { data: s.data, pos: p9 }, endian, ()) {
                                                                                            Err(e) => Err(e),
                                                                                            Ok((m10, p10)) => {
                                                                                                match T11::spec_after(m.11, StreamView { data: s.data, pos: p10 }, endian, ()) {
                                                                                                    Err(e) => Err(e),
                                                                                                    Ok((m11, p11)) => {
                                                                                                        match T12::spec_after(m.12, StreamView { data: s.data, pos: p11 }, endian, ()) {
                                                                                                            Err(e) => Err(e),
                                                                                                            Ok((m12, p12)) => Ok(((m0, m1, m2, m3, m4, m5, m6, m7, m8, m9, m10, m11, m12), p12)),
                                                                                                        }
                                                                                                    },
                                                                                                }
                                                                                            },
                                                                                        }
                                                                                    },
                                                                                }
                                                                            },
                                                                        }
                                                                    },
                                                                }
                                                            },
                                                        }
                                                    },
                                                }
                                            },
                                        }
                                    },
                                }
                            },
                        }
                    },
                }
            },
        }
    }

    open spec fn restores_on_failure() -> bool {
        false
    }

    fn read_options(reader: &mut Cursor, options: &ReadOptions, args: ()) -> (r: BinResult<
        (T0, T1, T2, T3, T4, T5, T6, T7, T8, T9, T10, T11, T12),
    >) {
        proof {
            assert(!Self::restores_on_failure());
        }
        let v0 = match T0::read_options(reader, options, ()) {
            Ok(v) => v,
            Err(e) => {
                return Err(e);
            },
        };
        let v1 = match T1::read_options(reader, options, ()) {
            Ok(v) => v,
            Err(e) => {
                return Err(e);
            },
        };
        let v2 = match T2::read_options(reader, options, ()) {
            Ok(v) => v,
            Err(e) => {
                return Err(e);
            },
        };
        let v3 = match T3::read_options(reader, options, ()) {
            Ok(v) => v,
            Err(e) => {
                return Err(e);
            },
        };
        let v4 = match T4::read_options(reader, options, ()) {
            Ok(v) => v,
            Err(e) => {
                return Err(e);
            },
        };
        let v5 = match T5::read_options(reader, options, ()) {
            Ok(v) => v,
            Err(e) => {
                return Err(e);
            },
        };
        let v6 = match T6::read_options(reader, options, ()) {
            Ok(v) => v,
            Err(e) => {
                return Err(e);
            },
        };
        let v7 = match T7::read_options(reader, options, ()) {
            Ok(v) => v,
            Err(e) => {
                return Err(e);
            },
        };
        let v8 = match T8::read_options(reader, options, ()) {
            Ok(v) => v,
            Err(e) => {
                return Err(e);
            },
        };
        let v9 = match T9::read_options(reader, options, ()) {
            Ok(v) => v,
            Err(e) => {
                return Err(e);
            },
        };
        let v10 = match T10::read_options(reader, options, ()) {
            Ok(v) => v,
            Err(e) => {
                return Err(e);
            },
        };
        let v11 = match T11::read_options(reader, options, ()) {
            Ok(v) => v,
            Err(e) => {
                return Err(e);
            },
        };
        let v12 = match T12::read_options(reader, options, ()) {
            Ok(v) => v,
            Err(e) => {
                return Err(e);
            },
        };
        Ok((v0, v1, v2, v3, v4, v5, v6, v7, v8, v9, v10, v11, v12))
    }

    fn after_parse(self, reader: &mut Cursor, options: &ReadOptions, args: ()) -> (r: BinResult<
        (T0, T1, T2, T3, T4, T5, T6, T7, T8, T9, T10, T11, T12),
    >) {
        let (x0, x1, x2, x3, x4, x5, x6, x7, x8, x9, x10, x11, x12) = self;
        let v0 = match x0.after_parse(reader, options, ()) {
            Ok(v) => v,
            Err(e) => {
                return Err(e);
            },
        };
        let v1 = match x1.after_parse(reader, options, ()) {
            Ok(v) => v,
            Err(e) => {
                return Err(e);
            },
        };
        let v2 = match x2.after_parse(reader, options, ()) {
            Ok(v) => v,
            Err(e) => {
                return Err(e);
            },
        };
        let v3 = match x3.after_parse(reader, options, ()) {
            Ok(v) => v,
            Err(e) => {
                return Err(e);
            },
        };
        let v4 = match x4.after_parse(reader, options, ()) {
            Ok(v) => v,
            Err(e) => {
                return Err(e);
            },
        };
        let v5 = match x5.after_parse(reader, options, ()) {
            Ok(v) => v,
            Err(e) => {
                return Err(e);
            },
        };
        let v6 = match x6.after_parse(reader, options, ()) {
            Ok(v) => v,
            Err(e) => {
                return Err(e);
            },
        };
        let v7 = match x7.after_parse(reader, options, ()) {
            Ok(v) => v,
            Err(e) => {
                return Err(e);
            },
        };
        let v8 = match x8.after_parse(reader, options, ()) {
            Ok(v) => v,
            Err(e) => {
                return Err(e);
            },
        };
        let v9 = match x9.after_parse(reader, options, ()) {
            Ok(v) => v,
            Err(e) => {
                return Err(e);
            },
        };
        let v10 = match x10.after_parse(reader, options, ()) {
            Ok(v) => v,
            Err(e) => {
                return Err(e);
            },
        };
        let v11 = match x11.after_parse(reader, options, ()) {
            Ok(v) => v,
            Err(e) => {
                return Err(e);
            },
        };
        let v12 = match x12.after_parse(reader, options, ()) {
            Ok(v) => v,
            Err(e) => {
                return Err(e);
            },
        };
        Ok((v0, v1, v2, v3, v4, v5, v6, v7, v8, v9, v10, v11, v12))
    }
}

impl<T0: BinRead<Args = ()>, T1: BinRead<Args = ()>, T2: BinRead<Args = ()>, T3: BinRead<Args = ()>, T4: BinRead<Args = ()>, T5: BinRead<Args = ()>, T6: BinRead<Args = ()>, T7: BinRead<Args = ()>, T8: BinRead<Args = ()>, T9: BinRead<Args = ()>, T10: BinRead<Args = ()>, T11: BinRead<Args = ()>, T12: BinRead<Args = ()>, T13: BinRead<Args = ()>> BinRead for (T0, T1, T2, T3, T4, T5, T6, T7, T8, T9, T10, T11, T12, T13) {
    type Args = ();

    type Model = (T0::Model, T1::Model, T2::Model, T3::Model, T4::Model, T5::Model, T6::Model, T7::Model, T8::Model, T9::Model, T10::Model, T11::Model, T12::Model, T13::Model);

    open spec fn model(self) -> (T0::Model, T1::Model, T2::Model, T3::Model, T4::Model, T5::Model, T6::Model, T7::Model, T8::Model, T9::Model, T10::Model, T11::Model, T12::Model, T13::Model) {
        (self.0.model(), self.1.model(), self.2.model(), self.3.model(), self.4.model(), self.5.model(), self.6.model(), self.7.model(), self.8.model(), self.9.model(), self.10.model(), self.11.model(), self.12.model(), self.13.model())
    }

    open spec fn spec_read(s: StreamView, endian: Endian, args: ()) -> Result<
        ((T0::Model, T1::Model, T2::Model, T3::Model, T4::Model, T5::Model, T6::Model, T7::Model, T8::Model, T9::Model, T10::Model, T11::Model, T12::Model, T13::Model), int),
        Error,
    > {
        match T0::spec_read(s, endian, ()) {
            Err(e) => Err(e),
            Ok((m0, p0)) => {
                match T1::spec_read(StreamView { data: s.data, pos: p0 }, endian, ()) {
                    Err(e) => Err(e),
                    Ok((m1, p1)) => {
                        match T2::spec_read(StreamView { data: s.data, pos: p1 }, endian, ()) {
                            Err(e) => Err(e),
                            Ok((m2, p2)) => {
                                match T3::spec_read(StreamView { data: s.data, pos: p2 }, endian, ()) {
                                    Err(e) => Err(e),
                                    Ok((m3, p3)) => {
                                        match T4::spec_read(StreamView { data: s.data, pos: p3 }, endian, ()) {
                                            Err(e) => Err(e),
                                            Ok((m4, p4)) => {
                                                match T5::spec_read(StreamView { data: s.data, pos: p4 }, endian, ()) {
                                                    Err(e) => Err(e),
                                                    Ok((m5, p5)) => {
                                                        match T6::spec_read(StreamView { data: s.data, pos: p5 }, endian, ()) {
                                                            Err(e) => Err(e),
                                                            Ok((m6, p6)) => {
                                                                match T7::spec_read(StreamView { data: s.data, pos: p6 }, endian, ()) {
                                                                    Err(e) => Err(e),
                                                                    Ok((m7, p7)) => {
                                                                        match T8::spec_read(StreamView { data: s.data, pos: p7 }, endian, ()) {
                                                                            Err(e) => Err(e),
                                                                            Ok((m8, p8)) => {
                                                                                match T9::spec_read(StreamView { data: s.data, pos: p8 }, endian, ()) {
                                                                                    Err(e) => Err(e),
                                                                                    Ok((m9, p9)) => {
                                                                                        match T10::spec_read(StreamView { data: s.data, pos: p9 }, endian, ()) {
                                                                                            Err(e) => Err(e),
                                                                                            Ok((m10, p10)) => {
                                                                                                match T11::spec_read(StreamView { data: s.data, pos: p10 }, endian, ()) {
                                                                                                    Err(e) => Err(e),
                                                                                                    Ok((m11, p11)) => {
                                                                                                        match T12::spec_read(StreamView { data: s.data, pos: p11 }, endian, ()) {
                                                                                                            Err(e) => Err(e),
                                                                                                            Ok((m12, p12)) => {
                                                                                                                match T13::spec_read(StreamView { data: s.data, pos: p12 }, endian, ()) {
                                                                                                                    Err(e) => Err(e),
                                                                                                                    Ok((m13, p13)) => Ok(((m0, m1, m2, m3, m4, m5, m6, m7, m8, m9, m10, m11, m12, m13), p13)),
                                                                                                                }
                                                                                                            },
                                                                                                        }
                                                                                                    },
                                                                                                }
                                                                                            },
                                                                                        }
                                                                                    },
                                                                                }
                                                                            },
                                                                        }
                                                                    },
                                                                }
                                                            },
                                                        }
                                                    },
                                                }
                                            },
                                        }
                                    },
                                }
                            },
                        }
                    },
                }
            },
        }
    }

    open spec fn spec_after(m: (T0::Model, T1::Model, T2::Model, T3::Model, T4::Model, T5::Model, T6::Model, T7::Model, T8::Model, T9::Model, T10::Model, T11::Model, T12::Model, T13::Model), s: StreamView, endian: Endian, args: ()) -> Result<
        ((T0::Model, T1::Model, T2::Model, T3::Model, T4::Model, T5::Model, T6::Model, T7::Model, T8::Model, T9::Model, T10::Model, T11::Model, T12::Model, T13::Model), int),
        Error,
    > {
        match T0::spec_after(m.0, s, endian, ()) {
            Err(e) => Err(e),
            Ok((m0, p0)) => {
                match T1::spec_after(m.1, StreamView { data: s.data, pos: p0 }, endian, ()) {
                    Err(e) => Err(e),
                    Ok((m1, p1)) => {
                        match T2::spec_after(m.2, StreamView { data: s.data, pos: p1 }, endian, ()) {
                            Err(e) => Err(e),
                            Ok((m2, p2)) => {
                                match T3::spec_after(m.3, StreamView { data: s.data, pos: p2 }, endian, ()) {
                                    Err(e) => Err(e),
                                    Ok((m3, p3)) => {
                                        match T4::spec_after(m.4, StreamView { data: s.data, pos: p3 }, endian, ()) {
                                            Err(e) => Err(e),
                                            Ok((m4, p4)) => {
                                                match T5::spec_after(m.5, StreamView { data: s.data, pos: p4 }, endian, ()) {
                                                    Err(e) => Err(e),
                                                    Ok((m5, p5)) => {
                                                        match T6::spec_after(m.6, StreamView { data: s.data, pos: p5 }, endian, ()) {
                                                            Err(e) => Err(e),
                                                            Ok((m6, p6)) => {
                                                                match T7::spec_after(m.7, StreamView { data: s.data, pos: p6 }, endian, ()) {
                                                                    Err(e) => Err(e),
                                                                    Ok((m7, p7)) => {
                                                                        match T8::spec_after(m.8, StreamView { data: s.data, pos: p7 }, endian, ()) {
                                                                            Err(e) => Err(e),
                                                                            Ok((m8, p8)) => {
                                                                                match T9::spec_after(m.9, StreamView { data: s.data, pos: p8 }, endian, ()) {
                                                                                    Err(e) => Err(e),
                                                                                    Ok((m9, p9)) => {
                                                                                        match T10::spec_after(m.10, StreamView { data: s.data, pos: p9 }, endian, ()) {
                                                                                            Err(e) => Err(e),
                                                                                            Ok((m10, p10)) => {
                                                                                                match T11::spec_after(m.11, StreamView { data: s.data, pos: p10 }, endian, ()) {
                                                                                                    Err(e) => Err(e),
                                                                                                    Ok((m11, p11)) => {
                                                                                                        match T12::spec_after(m.12, StreamView { data: s.data, pos: p11 }, endian, ()) {
                                                                                                            Err(e) => Err(e),
                                                                                                            Ok((m12, p12)) => {
                                                                                                                match T13::spec_after(m.13, StreamView { data: s.data, pos: p12 }, endian, ()) {
                                                                                                                    Err(e) => Err(e),
                                                                                                                    Ok((m13, p13)) => Ok(((m0, m1, m2, m3, m4, m5, m6, m7, m8, m9, m10, m11, m12, m13), p13)),
                                                                                                                }
                                                                                                            },
                                                                                                        }
                                                                                                    },
                                                                                                }
                                                                                            },
                                                                                        }
                                                                                    },
                                                                                }
                                                                            },
                                                                        }
                                                                    },
                                                                }
                                                            },
                                                        }
                                                    },
                                                }
                                            },
                                        }
                                    },
                                }
                            },
                        }
                    },
                }
            },
        }
    }

    open spec fn restores_on_failure() -> bool {
        false
    }

    fn read_options(reader: &mut Cursor, options: &ReadOptions, args: ()) -> (r: BinResult<
        (T0, T1, T2, T3, T4, T5, T6, T7, T8, T9, T10, T11, T12, T13),
    >) {
        proof {
            assert(!Self::restores_on_failure());
        }
        let v0 = match T0::read_options(reader, options, ()) {
            Ok(v) => v,
            Err(e) => {
                return Err(e);
            },
        };
        let v1 = match T1::read_options(reader, options, ()) {
            Ok(v) => v,
            Err(e) => {
                return Err(e);
            },
        };
        let v2 = match T2::read_options(reader, options, ()) {
            Ok(v) => v,
            Err(e) => {
                return Err(e);
            },
        };
        let v3 = match T3::read_options(reader, options, ()) {
            Ok(v) => v,
            Err(e) => {
                return Err(e);
            },
        };
        let v4 = match T4::read_options(reader, options, ()) {
            Ok(v) => v,
            Err(e) => {
                return Err(e);
            },
        };
        let v5 = match T5::read_options(reader, options, ()) {
            Ok(v) => v,
            Err(e) => {
                return Err(e);
            },
        };
        let v6 = match T6::read_options(reader, options, ()) {
            Ok(v) => v,
            Err(e) => {
                return Err(e);
            },
        };
        let v7 = match T7::read_options(reader, options, ()) {
            Ok(v) => v,
            Err(e) => {
                return Err(e);
            },
        };
        let v8 = match T8::read_options(reader, options, ()) {
            Ok(v) => v,
            Err(e) => {
                return Err(e);
            },
        };
        let v9 = match T9::read_options(reader, options, ()) {
            Ok(v) => v,
            Err(e) => {
                return Err(e);
            },
        };
        let v10 = match T10::read_options(reader, options, ()) {
            Ok(v) => v,
            Err(e) => {
                return Err(e);
            },
        };
        let v11 = match T11::read_options(reader, options, ()) {
            Ok(v) => v,
            Err(e) => {
                return Err(e);
            },
        };
        let v12 = match T12::read_options(reader, options, ()) {
            Ok(v) => v,
            Err(e) => {
                return Err(e);
            },
        };
        let v13 = match T13::read_options(reader, options, ()) {
            Ok(v) => v,
            Err(e) => {
                return Err(e);
            },
        };
        Ok((v0, v1, v2, v3, v4, v5, v6, v7, v8, v9, v10, v11, v12, v13))
    }

    fn after_parse(self, reader: &mut Cursor, options: &ReadOptions, args: ()) -> (r: BinResult<
        (T0, T1, T2, T3, T4, T5, T6, T7, T8, T9, T10, T11, T12, T13),
    >) {
        let (x0, x1, x2, x3, x4, x5, x6, x7, x8, x9, x10, x11, x12, x13) = self;
        let v0 = match x0.after_parse(reader, options, ()) {
            Ok(v) => v,
            Err(e) => {
                return Err(e);
            },
        };
        let v1 = match x1.after_parse(reader, options, ()) {
            Ok(v) => v,
            Err(e) => {
                return Err(e);
            },
        };
        let v2 = match x2.after_parse(reader, options, ()) {
            Ok(v) => v,
            Err(e) => {
                return Err(e);
            },
        };
        let v3 = match x3.after_parse(reader, options, ()) {
            Ok(v) => v,
            Err(e) => {
                return Err(e);
            },
        };
        let v4 = match x4.after_parse(reader, options, ()) {
            Ok(v) => v,
            Err(e) => {
                return Err(e);
            },
        };
        let v5 = match x5.after_parse(reader, options, ()) {
            Ok(v) => v,
            Err(e) => {
                return Err(e);
            },
        };
        let v6 = match x6.after_parse(reader, options, ()) {
            Ok(v) => v,
            Err(e) => {
                return Err(e);
            },
        };
        let v7 = match x7.after_parse(reader, options, ()) {
            Ok(v) => v,
            Err(e) => {
                return Err(e);
            },
        };
        let v8 = match x8.after_parse(reader, options, ()) {
            Ok(v) => v,
            Err(e) => {
                return Err(e);
            },
        };
        let v9 = match x9.after_parse(reader, options, ()) {
            Ok(v) => v,
            Err(e) => {
                return Err(e);
            },
        };
        let v10 = match x10.after_parse(reader, options, ()) {
            Ok(v) => v,
            Err(e) => {
                return Err(e);
            },
        };
        let v11 = match x11.after_parse(reader, options, ()) {
            Ok(v) => v,
            Err(e) => {
                return Err(e);
            },
        };
        let v12 = match x12.after_parse(reader, options, ()) {
            Ok(v) => v,
            Err(e) => {
                return Err(e);
            },
        };
        let v13 = match x13.after_parse(reader, options, ()) {
            Ok(v) => v,
            Err(e) => {
                return Err(e);
            },
        };
        Ok((v0, v1, v2, v3, v4, v5, v6, v7, v8, v9, v10, v11, v12, v13))
    }
}

impl<T0: BinRead<Args = ()>, T1: BinRead<Args = ()>, T2: BinRead<Args = ()>, T3: BinRead<Args = ()>, T4: BinRead<Args = ()>, T5: BinRead<Args = ()>, T6: BinRead<Args = ()>, T7: BinRead<Args = ()>, T8: BinRead<Args = ()>, T9: BinRead<Args = ()>, T10: BinRead<Args = ()>, T11: BinRead<Args = ()>, T12: BinRead<Args = ()>, T13: BinRead<Args = ()>, T14: BinRead<Args = ()>> BinRead for (T0, T1, T2, T3, T4, T5, T6, T7, T8, T9, T10, T11, T12, T13, T14) {
    type Args = ();

    type Model = (T0::Model, T1::Model, T2::Model, T3::Model, T4::Model, T5::Model, T6::Model, T7::Model, T8::Model, T9::Model, T10::Model, T11::Model, T12::Model, T13::Model, T14::Model);

    open spec fn model(self) -> (T0::Model, T1::Model, T2::Model, T3::Model, T4::Model, T5::Model, T6::Model, T7::Model, T8::Model, T9::Model, T10::Model, T11::Model, T12::Model, T13::Model, T14::Model) {
        (self.0.model(), self.1.model(), self.2.model(), self.3.model(), self.4.model(), self.5.model(), self.6.model(), self.7.model(), self.8.model(), self.9.model(), self.10.model(), self.11.model(), self.12.model(), self.13.model(), self.14.model())
    }

    open spec fn spec_read(s: StreamView, endian: Endian, args: ()) -> Result<
        ((T0::Model, T1::Model, T2::Model, T3::Model, T4::Model, T5::Model, T6::Model, T7::Model, T8::Model, T9::Model, T10::Model, T11::Model, T12::Model, T13::Model, T14::Model), int),
        Error,
    > {
        match T0::spec_read(s, endian, ()) {
            Err(e) => Err(e),
            Ok((m0, p0)) => {
                match T1::spec_read(StreamView { data: s.data, pos: p0 }, endian, ()) {
                    Err(e) => Err(e),
                    Ok((m1, p1)) => {
                        match T2::spec_read(StreamView { data: s.data, pos: p1 }, endian, ()) {
                            Err(e) => Err(e),
                            Ok((m2, p2)) => {
                                match T3::spec_read(StreamView { data: s.data, pos: p2 }, endian, ()) {
                                    Err(e) => Err(e),
                                    Ok((m3, p3)) => {
                                        match T4::spec_read(StreamView { data: s.data, pos: p3 }, endian, ()) {
                                            Err(e) => Err(e),
                                            Ok((m4, p4)) => {
                                                match T5::spec_read(StreamView { data: s.data, pos: p4 }, endian, ()) {
                                                    Err(e) => Err(e),
                                                    Ok((m5, p5)) => {
                                                        match T6::spec_read(StreamView { data: s.data, pos: p5 }, endian, ()) {
                                                            Err(e) => Err(e),
                                                            Ok((m6, p6)) => {
                                                                match T7::spec_read(StreamView { data: s.data, pos: p6 }, endian, ()) {
                                                                    Err(e) => Err(e),
                                                                    Ok((m7, p7)) => {
                                                                        match T8::spec_read(StreamView { data: s.data, pos: p7 }, endian, ()) {
                                                                            Err(e) => Err(e),
                                                                            Ok((m8, p8)) => {
                                                                                match T9::spec_read(StreamView { data: s.data, pos: p8 }, endian, ()) {
                                                                                    Err(e) => Err(e),
                                                                                    Ok((m9, p9)) => {
                                                                                        match T10::spec_read(StreamView { data: s.data, pos: p9 }, endian, ()) {
                                                                                            Err(e) => Err(e),
                                                                                            Ok((m10, p10)) => {
                                                                                                match T11::spec_read(StreamView { data: s.data, pos: p10 }, endian, ()) {
                                                                                                    Err(e) => Err(e),
                                                                                                    Ok((m11, p11)) => {
                                                                                                        match T12::spec_read(StreamView { data: s.data, pos: p11 }, endian, ()) {
                                                                                                            Err(e) => Err(e),
                                                                                                            Ok((m12, p12)) => {
                                                                                                                match T13::spec_read(StreamView { data: s.data, pos: p12 }, endian, ()) {
                                                                                                                    Err(e) => Err(e),
                                                                                                                    Ok((m13, p13)) => {
                                                                                                                        match T14::spec_read(StreamView { data: s.data, pos: p13 }, endian, ()) {
                                                                                                                            Err(e) => Err(e),
                                                                                                                            Ok((m14, p14)) => Ok(((m0, m1, m2, m3, m4, m5, m6, m7, m8, m9, m10, m11, m12, m13, m14), p14)),
                                                                                                                        }
                                                                                                                    },
                                                                                                                }
                                                                                                            },
                                                                                                        }
                                                                                                    },
                                                                                                }
                                                                                            },
                                                                                        }
                                                                                    },
                                                                                }
                                                                            },
                                                                        }
                                                                    },
                                                                }
                                                            },
                                                        }
                                                    },
                                                }
                                            },
                                        }
                                    },
                                }
                            },
                        }
                    },
                }
            },
        }
    }

    open spec fn spec_after(m: (T0::Model, T1::Model, T2::Model, T3::Model, T4::Model, T5::Model, T6::Model, T7::Model, T8::Model, T9::Model, T10::Model, T11::Model, T12::Model, T13::Model, T14::Model), s: StreamView, endian: Endian, args: ()) -> Result<
        ((T0::Model, T1::Model, T2::Model, T3::Model, T4::Model, T5::Model, T6::Model, T7::Model, T8::Model, T9::Model, T10::Model, T11::Model, T12::Model, T13::Model, T14::Model), int),
        Error,
    > {
        match T0::spec_after(m.0, s, endian, ()) {
            Err(e) => Err(e),
            Ok((m0, p0)) => {
                match T1::spec_after(m.1, StreamView { data: s.data, pos: p0 }, endian, ()) {
                    Err(e) => Err(e),
                    Ok((m1, p1)) => {
                        match T2::spec_after(m.2, StreamView { data: s.data, pos: p1 }, endian, ()) {
                            Err(e) => Err(e),
                            Ok((m2, p2)) => {
                                match T3::spec_after(m.3, StreamView { data: s.data, pos: p2 }, endian, ()) {
                                    Err(e) => Err(e),
                                    Ok((m3, p3)) => {
                                        match T4::spec_after(m.4, StreamView { data: s.data, pos: p3 }, endian, ()) {
                                            Err(e) => Err(e),
                                            Ok((m4, p4)) => {
                                                match T5::spec_after(m.5, StreamView { data: s.data, pos: p4 }, endian, ()) {
                                                    Err(e) => Err(e),
                                                    Ok((m5, p5)) => {
                                                        match T6::spec_after(m.6, StreamView { data: s.data, pos: p5 }, endian, ()) {
                                                            Err(e) => Err(e),
                                                            Ok((m6, p6)) => {
                                                                match T7::spec_after(m.7, StreamView { data: s.data, pos: p6 }, endian, ()) {
                                                                    Err(e) => Err(e),
                                                                    Ok((m7, p7)) => {
                                                                        match T8::spec_after(m.8, StreamView { data: s.data, pos: p7 }, endian, ()) {
                                                                            Err(e) => Err(e),
                                                                            Ok((m8, p8)) => {
                                                                                match T9::spec_after(m.9, StreamView { data: s.data, pos: p8 }, endian, ()) {
                                                                                    Err(e) => Err(e),
                                                                                    Ok((m9, p9)) => {
                                                                                        match T10::spec_after(m.10, StreamView { data: s.data, pos: p9 }, endian, ()) {
                                                                                            Err(e) => Err(e),
                                                                                            Ok((m10, p10)) => {
                                                                                                match T11::spec_after(m.11, StreamView { data: s.data, pos: p10 }, endian, ()) {
                                                                                                    Err(e) => Err(e),
                                                                                                    Ok((m11, p11)) => {
                                                                                                        match T12::spec_after(m.12, StreamView { data: s.data, pos: p11 }, endian, ()) {
                                                                                                            Err(e) => Err(e),
                                                                                                            Ok((m12, p12)) => {
                                                                                                                match T13::spec_after(m.13, StreamView { data: s.data, pos: p12 }, endian, ()) {
                                                                                                                    Err(e) => Err(e),
                                                                                                                    Ok((m13, p13)) => {
                                                                                                                        match T14::spec_after(m.14, StreamView { data: s.data, pos: p13 }, endian, ()) {
                                                                                                                            Err(e) => Err(e),
                                                                                                                            Ok((m14, p14)) => Ok(((m0, m1, m2, m3, m4, m5, m6, m7, m8, m9, m10, m11, m12, m13, m14), p14)),
                                                                                                                        }
                                                                                                                    },
                                                                                                                }
                                                                                                            },
                                                                                                        }
                                                                                                    },
                                                                                                }
                                                                                            },
                                                                                        }
                                                                                    },
                                                                                }
                                                                            },
                                                                        }
                                                                    },
                                                                }
                                                            },
                                                        }
                                                    },
                                                }
                                            },
                                        }
                                    },
                                }
                            },
                        }
                    },
                }
            },
        }
    }

    open spec fn restores_on_failure() -> bool {
        false
    }

    fn read_options(reader: &mut Cursor, options: &ReadOptions, args: ()) -> (r: BinResult<
        (T0, T1, T2, T3, T4, T5, T6, T7, T8, T9, T10, T11, T12, T13, T14),
    >) {
        proof {
            assert(!Self::restores_on_failure());
        }
        let v0 = match T0::read_options(reader, options, ()) {
            Ok(v) => v,
            Err(e) => {
                return Err(e);
            },
        };
        let v1 = match T1::read_options(reader, options, ()) {
            Ok(v) => v,
            Err(e) => {
                return Err(e);
            },
        };
        let v2 = match T2::read_options(reader, options, ()) {
            Ok(v) => v,
            Err(e) => {
                return Err(e);
            },
        };
        let v3 = match T3::read_options(reader, options, ()) {
            Ok(v) => v,
            Err(e) => {
                return Err(e);
            },
        };
        let v4 = match T4::read_options(reader, options, ()) {
            Ok(v) => v,
            Err(e) => {
                return Err(e);
            },
        };
        let v5 = match T5::read_options(reader, options, ()) {
            Ok(v) => v,
            Err(e) => {
                return Err(e);
            },
        };
        let v6 = match T6::read_options(reader, options, ()) {
            Ok(v) => v,
            Err(e) => {
                return Err(e);
            },
        };
        let v7 = match T7::read_options(reader, options, ()) {
            Ok(v) => v,
            Err(e) => {
                return Err(e);
            },
        };
        let v8 = match T8::read_options(reader, options, ()) {
            Ok(v) => v,
            Err(e) => {
                return Err(e);
            },
        };
        let v9 = match T9::read_options(reader, options, ()) {
            Ok(v) => v,
            Err(e) => {
                return Err(e);
            },
        };
        let v10 = match T10::read_options(reader, options, ()) {
            Ok(v) => v,
            Err(e) => {
                return Err(e);
            },
        };
        let v11 = match T11::read_options(reader, options, ()) {
            Ok(v) => v,
            Err(e) => {
                return Err(e);
            },
        };
        let v12 = match T12::read_options(reader, options, ()) {
            Ok(v) => v,
            Err(e) => {
                return Err(e);
            },
        };
        let v13 = match T13::read_options(reader, options, ()) {
            Ok(v) => v,
            Err(e) => {
                return Err(e);
            },
        };
        let v14 = match T14::read_options(reader, options, ()) {
            Ok(v) => v,
            Err(e) => {
                return Err(e);
            },
        };
        Ok((v0, v1, v2, v3, v4, v5, v6, v7, v8, v9, v10, v11, v12, v13, v14))
    }

    fn after_parse(self, reader: &mut Cursor, options: &ReadOptions, args: ()) -> (r: BinResult<
        (T0, T1, T2, T3, T4, T5, T6, T7, T8, T9, T10, T11, T12, T13, T14),
    >) {
        let (x0, x1, x2, x3, x4, x5, x6, x7, x8, x9, x10, x11, x12, x13, x14) = self;
        let v0 = match x0.after_parse(reader, options, ()) {
            Ok(v) => v,
            Err(e) => {
                return Err(e);
            },
        };
        let v1 = match x1.after_parse(reader, options, ()) {
            Ok(v) => v,
            Err(e) => {
                return Err(e);
            },
        };
        let v2 = match x2.after_parse(reader, options, ()) {
            Ok(v) => v,
            Err(e) => {
                return Err(e);
            },
        };
        let v3 = match x3.after_parse(reader, options, ()) {
            Ok(v) => v,
            Err(e) => {
                return Err(e);
            },
        };
        let v4 = match x4.after_parse(reader, options, ()) {
            Ok(v) => v,
            Err(e) => {
                return Err(e);
            },
        };
        let v5 = match x5.after_parse(reader, options, ()) {
            Ok(v) => v,
            Err(e) => {
                return Err(e);
            },
        };
        let v6 = match x6.after_parse(reader, options, ()) {
            Ok(v) => v,
            Err(e) => {
                return Err(e);
            },
        };
        let v7 = match x7.after_parse(reader, options, ()) {
            Ok(v) => v,
            Err(e) => {
                return Err(e);
            },
        };
        let v8 = match x8.after_parse(reader, options, ()) {
            Ok(v) => v,
            Err(e) => {
                return Err(e);
            },
        };
        let v9 = match x9.after_parse(reader, options, ()) {
            Ok(v) => v,
            Err(e) => {
                return Err(e);
            },
        };
        let v10 = match x10.after_parse(reader, options, ()) {
            Ok(v) => v,
            Err(e) => {
                return Err(e);
            },
        };
        let v11 = match x11.after_parse(reader, options, ()) {
            Ok(v) => v,
            Err(e) => {
                return Err(e);
            },
        };
        let v12 = match x12.after_parse(reader, options, ()) {
            Ok(v) => v,
            Err(e) => {
                return Err(e);
            },
        };
        let v13 = match x13.after_parse(reader, options, ()) {
            Ok(v) => v,
            Err(e) => {
                return Err(e);
            },
        };
        let v14 = match x14.after_parse(reader, options, ()) {
            Ok(v) => v,
            Err(e) => {
                return Err(e);
            },
        };
        Ok((v0, v1, v2, v3, v4, v5, v6, v7, v8, v9, v10, v11, v12, v13, v14))
    }
}

impl<T0: BinRead<Args = ()>, T1: BinRead<Args = ()>, T2: BinRead<Args = ()>, T3: BinRead<Args = ()>, T4: BinRead<Args = ()>, T5: BinRead<Args = ()>, T6: BinRead<Args = ()>, T7: BinRead<Args = ()>, T8: BinRead<Args = ()>, T9: BinRead<Args = ()>, T10: BinRead<Args = ()>, T11: BinRead<Args = ()>, T12: BinRead<Args = ()>, T13: BinRead<Args = ()>, T14: BinRead<Args = ()>, T15: BinRead<Args = ()>> BinRead for (T0, T1, T2, T3, T4, T5, T6, T7, T8, T9, T10, T11, T12, T13, T14, T15) {
    type Args = ();

    type Model = (T0::Model, T1::Model, T2::Model, T3::Model, T4::Model, T5::Model, T6::Model, T7::Model, T8::Model, T9::Model, T10::Model, T11::Model, T12::Model, T13::Model, T14::Model, T15::Model);

    open spec fn model(self) -> (T0::Model, T1::Model, T2::Model, T3::Model, T4::Model, T5::Model, T6::Model, T7::Model, T8::Model, T9::Model, T10::Model, T11::Model, T12::Model, T13::Model, T14::Model, T15::Model) {
        (self.0.model(), self.1.model(), self.2.model(), self.3.model(), self.4.model(), self.5.model(), self.6.model(), self.7.model(), self.8.model(), self.9.model(), self.10.model(), self.11.model(), self.12.model(), self.13.model(), self.14.model(), self.15.model())
    }

    open spec fn spec_read(s: StreamView, endian: Endian, args: ()) -> Result<
        ((T0::Model, T1::Model, T2::Model, T3::Model, T4::Model, T5::Model, T6::Model, T7::Model, T8::Model, T9::Model, T10::Model, T11::Model, T12::Model, T13::Model, T14::Model, T15::Model), int),
        Error,
    > {
        match T0::spec_read(s, endian, ()) {
            Err(e) => Err(e),
            Ok((m0, p0)) => {
                match T1::spec_read(StreamView { data: s.data, pos: p0 }, endian, ()) {
                    Err(e) => Err(e),
                    Ok((m1, p1)) => {
                        match T2::spec_read(StreamView { data: s.data, pos: p1 }, endian, ()) {
                            Err(e) => Err(e),
                            Ok((m2, p2)) => {
                                match T3::spec_read(StreamView { data: s.data, pos: p2 }, endian, ()) {
                                    Err(e) => Err(e),
                                    Ok((m3, p3)) => {
                                        match T4::spec_read(StreamView { data: s.data, pos: p3 }, endian, ()) {
                                            Err(e) => Err(e),
                                            Ok((m4, p4)) => {
                                                match T5::spec_read(StreamView { data: s.data, pos: p4 }, endian, ()) {
                                                    Err(e) => Err(e),
                                                    Ok((m5, p5)) => {
                                                        match T6::spec_read(StreamView { data: s.data, pos: p5 }, endian, ()) {
                                                            Err(e) => Err(e),
                                                            Ok((m6, p6)) => {
                                                                match T7::spec_read(StreamView { data: s.data, pos: p6 }, endian, ()) {
                                                                    Err(e) => Err(e),
                                                                    Ok((m7, p7)) => {
                                                                        match T8::spec_read(StreamView { data: s.data, pos: p7 }, endian, ()) {
                                                                            Err(e) => Err(e),
                                                                            Ok((m8, p8)) => {
                                                                                match T9::spec_read(StreamView { data: s.data, pos: p8 }, endian, ()) {
                                                                                    Err(e) => Err(e),
                                                                                    Ok((m9, p9)) => {
                                                                                        match T10::spec_read(StreamView { data: s.data, pos: p9 }, endian, ()) {
                                                                                            Err(e) => Err(e),
                                                                                            Ok((m10, p10)) => {
                                                                                                match T11::spec_read(StreamView { data: s.data, pos: p10 }, endian, ()) {
                                                                                                    Err(e) => Err(e),
                                                                                                    Ok((m11, p11)) => {
                                                                                                        match T12::spec_read(StreamView { data: s.data, pos: p11 }, endian, ()) {
                                                                                                            Err(e) => Err(e),
                                                                                                            Ok((m12, p12)) => {
                                                                                                                match T13::spec_read(StreamView { data: s.data, pos: p12 }, endian, ()) {
                                                                                                                    Err(e) => Err(e),
                                                                                                                    Ok((m13, p13)) => {
                                                                                                                        match T14::spec_read(StreamView { data: s.data, pos: p13 }, endian, ()) {
                                                                                                                            Err(e) => Err(e),
                                                                                                                            Ok((m14, p14)) => {
                                                                                                                                match T15::spec_read(StreamView { data: s.data, pos: p14 }, endian, ()) {
                                                                                                                                    Err(e) => Err(e),
                                                                                                                                    Ok((m15, p15)) => Ok(((m0, m1, m2, m3, m4, m5, m6, m7, m8, m9, m10, m11, m12, m13, m14, m15), p15)),
                                                                                                                                }
                                                                                                                            },
                                                                                                                        }
                                                                                                                    },
                                                                                                                }
                                                                                                            },
                                                                                                        }
                                                                                                    },
                                                                                                }
                                                                                            },
                                                                                        }
                                                                                    },
                                                                                }
                                                                            },
                                                                        }
                                                                    },
                                                                }
                                                            },
                                                        }
                                                    },
                                                }
                                            },
                                        }
                                    },
                                }
                            },
                        }
                    },
                }
            },
        }
    }

    open spec fn spec_after(m: (T0::Model, T1::Model, T2::Model, T3::Model, T4::Model, T5::Model, T6::Model, T7::Model, T8::Model, T9::Model, T10::Model, T11::Model, T12::Model, T13::Model, T14::Model, T15::Model), s: StreamView, endian: Endian, args: ()) -> Result<
        ((T0::Model, T1::Model, T2::Model, T3::Model, T4::Model, T5::Model, T6::Model, T7::Model, T8::Model, T9::Model, T10::Model, T11::Model, T12::Model, T13::Model, T14::Model, T15::Model), int),
        Error,
    > {
        match T0::spec_after(m.0, s, endian, ()) {
            Err(e) => Err(e),
            Ok((m0, p0)) => {
                match T1::spec_after(m.1, StreamView { data: s.data, pos: p0 }, endian, ()) {
                    Err(e) => Err(e),
                    Ok((m1, p1)) => {
                        match T2::spec_after(m.2, StreamView { data: s.data, pos: p1 }, endian, ()) {
                            Err(e) => Err(e),
                            Ok((m2, p2)) => {
                                match T3::spec_after(m.3, StreamView { data: s.data, pos: p2 }, endian, ()) {
                                    Err(e) => Err(e),
                                    Ok((m3, p3)) => {
                                        match T4::spec_after(m.4, StreamView { data: s.data, pos: p3 }, endian, ()) {
                                            Err(e) => Err(e),
                                            Ok((m4, p4)) => {
                                                match T5::spec_after(m.5, StreamView { data: s.data, pos: p4 }, endian, ()) {
                                                    Err(e) => Err(e),
                                                    Ok((m5, p5)) => {
                                                        match T6::spec_after(m.6, StreamView { data: s.data, pos: p5 }, endian, ()) {
                                                            Err(e) => Err(e),
                                                            Ok((m6, p6)) => {
                                                                match T7::spec_after(m.7, StreamView { data: s.data, pos: p6 }, endian, ()) {
                                                                    Err(e) => Err(e),
                                                                    Ok((m7, p7)) => {
                                                                        match T8::spec_after(m.8, StreamView { data: s.data, pos: p7 }, endian, ()) {
                                                                            Err(e) => Err(e),
                                                                            Ok((m8, p8)) => {
                                                                                match T9::spec_after(m.9, StreamView { data: s.data, pos: p8 }, endian, ()) {
                                                                                    Err(e) => Err(e),
                                                                                    Ok((m9, p9)) => {
                                                                                        match T10::spec_after(m.10, StreamView { data: s.data, pos: p9 }, endian, ()) {
                                                                                            Err(e) => Err(e),
                                                                                            Ok((m10, p10)) => {
                                                                                                match T11::spec_after(m.11, StreamView { data: s.data, pos: p10 }, endian, ()) {
                                                                                                    Err(e) => Err(e),
                                                                                                    Ok((m11, p11)) => {
                                                                                                        match T12::spec_after(m.12, StreamView { data: s.data, pos: p11 }, endian, ()) {
                                                                                                            Err(e) => Err(e),
                                                                                                            Ok((m12, p12)) => {
                                                                                                                match T13::spec_after(m.13, StreamView { data: s.data, pos: p12 }, endian, ()) {
                                                                                                                    Err(e) => Err(e),
                                                                                                                    Ok((m13, p13)) => {
                                                                                                                        match T14::spec_after(m.14, StreamView { data: s.data, pos: p13 }, endian, ()) {
                                                                                                                            Err(e) => Err(e),
                                                                                                                            Ok((m14, p14)) => {
                                                                                                                                match T15::spec_after(m.15, StreamView { data: s.data, pos: p14 }, endian, ()) {
                                                                                                                                    Err(e) => Err(e),
                                                                                                                                    Ok((m15, p15)) => Ok(((m0, m1, m2, m3, m4, m5, m6, m7, m8, m9, m10, m11, m12, m13, m14, m15), p15)),
                                                                                                                                }
                                                                                                                            },
                                                                                                                        }
                                                                                                                    },
                                                                                                                }
                                                                                                            },
                                                                                                        }
                                                                                                    },
                                                                                                }
                                                                                            },
                                                                                        }
                                                                                    },
                                                                                }
                                                                            },
                                                                        }
                                                                    },
                                                                }
                                                            },
                                                        }
                                                    },
                                                }
                                            },
                                        }
                                    },
                                }
                            },
                        }
                    },
                }
            },
        }
    }

    open spec fn restores_on_failure() -> bool {
        false
    }

    fn read_options(reader: &mut Cursor, options: &ReadOptions, args: ()) -> (r: BinResult<
        (T0, T1, T2, T3, T4, T5, T6, T7, T8, T9, T10, T11, T12, T13, T14, T15),
    >) {
        proof {
            assert(!Self::restores_on_failure());
        }
        let v0 = match T0::read_options(reader, options, ()) {
            Ok(v) => v,
            Err(e) => {
                return Err(e);
            },
        };
        let v1 = match T1::read_options(reader, options, ()) {
            Ok(v) => v,
            Err(e) => {
                return Err(e);
            },
        };
        let v2 = match T2::read_options(reader, options, ()) {
            Ok(v) => v,
            Err(e) => {
                return Err(e);
            },
        };
        let v3 = match T3::read_options(reader, options, ()) {
            Ok(v) => v,
            Err(e) => {
                return Err(e);
            },
        };
        let v4 = match T4::read_options(reader, options, ()) {
            Ok(v) => v,
            Err(e) => {
                return Err(e);
            },
        };
        let v5 = match T5::read_options(reader, options, ()) {
            Ok(v) => v,
            Err(e) => {
                return Err(e);
            },
        };
        let v6 = match T6::read_options(reader, options, ()) {
            Ok(v) => v,
            Err(e) => {
                return Err(e);
            },
        };
        let v7 = match T7::read_options(reader, options, ()) {
            Ok(v) => v,
            Err(e) => {
                return Err(e);
            },
        };
        let v8 = match T8::read_options(reader, options, ()) {
            Ok(v) => v,
            Err(e) => {
                return Err(e);
            },
        };
        let v9 = match T9::read_options(reader, options, ()) {
            Ok(v) => v,
            Err(e) => {
                return Err(e);
            },
        };
        let v10 = match T10::read_options(reader, options, ()) {
            Ok(v) => v,
            Err(e) => {
                return Err(e);
            },
        };
        let v11 = match T11::read_options(reader, options, ()) {
            Ok(v) => v,
            Err(e) => {
                return Err(e);
            },
        };
        let v12 = match T12::read_options(reader, options, ()) {
            Ok(v) => v,
            Err(e) => {
                return Err(e);
            },
        };
        let v13 = match T13::read_options(reader, options, ()) {
            Ok(v) => v,
            Err(e) => {
                return Err(e);
            },
        };
        let v14 = match T14::read_options(reader, options, ()) {
            Ok(v) => v,
            Err(e) => {
                return Err(e);
            },
        };
        let v15 = match T15::read_options(reader, options, ()) {
            Ok(v) => v,
            Err(e) => {
                return Err(e);
            },
        };
        Ok((v0, v1, v2, v3, v4, v5, v6, v7, v8, v9, v10, v11, v12, v13, v14, v15))
    }

    fn after_parse(self, reader: &mut Cursor, options: &ReadOptions, args: ()) -> (r: BinResult<
        (T0, T1, T2, T3, T4, T5, T6, T7, T8, T9, T10, T11, T12, T13, T14, T15),
    >) {
        let (x0, x1, x2, x3, x4, x5, x6, x7, x8, x9, x10, x11, x12, x13, x14, x15) = self;
        let v0 = match x0.after_parse(reader, options, ()) {
            Ok(v) => v,
            Err(e) => {
                return Err(e);
            },
        };
        let v1 = match x1.after_parse(reader, options, ()) {
            Ok(v) => v,
            Err(e) => {
                return Err(e);
            },
        };
        let v2 = match x2.after_parse(reader, options, ()) {
            Ok(v) => v,
            Err(e) => {
                return Err(e);
            },
        };
        let v3 = match x3.after_parse(reader, options, ()) {
            Ok(v) => v,
            Err(e) => {
                return Err(e);
            },
        };
        let v4 = match x4.after_parse(reader, options, ()) {
            Ok(v) => v,
            Err(e) => {
                return Err(e);
            },
        };
        let v5 = match x5.after_parse(reader, options, ()) {
            Ok(v) => v,
            Err(e) => {
                return Err(e);
            },
        };
        let v6 = match x6.after_parse(reader, options, ()) {
            Ok(v) => v,
            Err(e) => {
                return Err(e);
            },
        };
        let v7 = match x7.after_parse(reader, options, ()) {
            Ok(v) => v,
            Err(e) => {
                return Err(e);
            },
        };
        let v8 = match x8.after_parse(reader, options, ()) {
            Ok(v) => v,
            Err(e) => {
                return Err(e);
            },
        };
        let v9 = match x9.after_parse(reader, options, ()) {
            Ok(v) => v,
            Err(e) => {
                return Err(e);
            },
        };
        let v10 = match x10.after_parse(reader, options, ()) {
            Ok(v) => v,
            Err(e) => {
                return Err(e);
            },
        };
        let v11 = match x11.after_parse(reader, options, ()) {
            Ok(v) => v,
            Err(e) => {
                return Err(e);
            },
        };
        let v12 = match x12.after_parse(reader, options, ()) {
            Ok(v) => v,
            Err(e) => {
                return Err(e);
            },
        };
        let v13 = match x13.after_parse(reader, options, ()) {
            Ok(v) => v,
            Err(e) => {
                return Err(e);
            },
        };
        let v14 = match x14.after_parse(reader, options, ()) {
            Ok(v) => v,
            Err(e) => {
                return Err(e);
            },
        };
        let v15 = match x15.after_parse(reader, options, ()) {
            Ok(v) => v,
            Err(e) => {
                return Err(e);
            },
        };
        Ok((v0, v1, v2, v3, v4, v5, v6, v7, v8, v9, v10, v11, v12, v13, v14, v15))
    }
}

impl<T0: BinRead<Args = ()>, T1: BinRead<Args = ()>, T2: BinRead<Args = ()>, T3: BinRead<Args = ()>, T4: BinRead<Args = ()>, T5: BinRead<Args = ()>, T6: BinRead<Args = ()>, T7: BinRead<Args = ()>, T8: BinRead<Args = ()>, T9: BinRead<Args = ()>, T10: BinRead<Args = ()>, T11: BinRead<Args = ()>, T12: BinRead<Args = ()>, T13: BinRead<Args = ()>, T14: BinRead<Args = ()>, T15: BinRead<Args = ()>, T16: BinRead<Args = ()>> BinRead for (T0, T1, T2, T3, T4, T5, T6, T7, T8, T9, T10, T11, T12, T13, T14, T15, T16) {
    type Args = ();

    type Model = (T0::Model, T1::Model, T2::Model, T3::Model, T4::Model, T5::Model, T6::Model, T7::Model, T8::Model, T9::Model, T10::Model, T11::Model, T12::Model, T13::Model, T14::Model, T15::Model, T16::Model);

    open spec fn model(self) -> (T0::Model, T1::Model, T2::Model, T3::Model, T4::Model, T5::Model, T6::Model, T7::Model, T8::Model, T9::Model, T10::Model, T11::Model, T12::Model, T13::Model, T14::Model, T15::Model, T16::Model) {
        (self.0.model(), self.1.model(), self.2.model(), self.3.model(), self.4.model(), self.5.model(), self.6.model(), self.7.model(), self.8.model(), self.9.model(), self.10.model(), self.11.model(), self.12.model(), self.13.model(), self.14.model(), self.15.model(), self.16.model())
    }

    open spec fn spec_read(s: StreamView, endian: Endian, args: ()) -> Result<
        ((T0::Model, T1::Model, T2::Model, T3::Model, T4::Model, T5::Model, T6::Model, T7::Model, T8::Model, T9::Model, T10::Model, T11::Model, T12::Model, T13::Model, T14::Model, T15::Model, T16::Model), int),
        Error,
    > {
        match T0::spec_read(s, endian, ()) {
            Err(e) => Err(e),
            Ok((m0, p0)) => {
                match T1::spec_read(StreamView { data: s.data, pos: p0 }, endian, ()) {
                    Err(e) => Err(e),
                    Ok((m1, p1)) => {
                        match T2::spec_read(StreamView { data: s.data, pos: p1 }, endian, ()) {
                            Err(e) => Err(e),
                            Ok((m2, p2)) => {
                                match T3::spec_read(StreamView { data: s.data, pos: p2 }, endian, ()) {
                                    Err(e) => Err(e),
                                    Ok((m3, p3)) => {
                                        match T4::spec_read(StreamView { data: s.data, pos: p3 }, endian, ()) {
                                            Err(e) => Err(e),
                                            Ok((m4, p4)) => {
                                                match T5::spec_read(StreamView { data: s.data, pos: p4 }, endian, ()) {
                                                    Err(e) => Err(e),
                                                    Ok((m5, p5)) => {
                                                        match T6::spec_read(StreamView { data: s.data, pos: p5 }, endian, ()) {
                                                            Err(e) => Err(e),
                                                            Ok((m6, p6)) => {
                                                                match T7::spec_read(StreamView { data: s.data, pos: p6 }, endian, ()) {
                                                                    Err(e) => Err(e),
                                                                    Ok((m7, p7)) => {
                                                                        match T8::spec_read(StreamView { data: s.data, pos: p7 }, endian, ()) {
                                                                            Err(e) => Err(e),
                                                                            Ok((m8, p8)) => {
                                                                                match T9::spec_read(StreamView { data: s.data, pos: p8 }, endian, ()) {
                                                                                    Err(e) => Err(e),
                                                                                    Ok((m9, p9)) => {
                                                                                        match T10::spec_read(StreamView { data: s.data, pos: p9 }, endian, ()) {
                                                                                            Err(e) => Err(e),
                                                                                            Ok((m10, p10)) => {
                                                                                                match T11::spec_read(StreamView { data: s.data, pos: p10 }, endian, ()) {
                                                                                                    Err(e) => Err(e),
                                                                                                    Ok((m11, p11)) => {
                                                                                                        match T12::spec_read(StreamView { data: s.data, pos: p11 }, endian, ()) {
                                                                                                            Err(e) => Err(e),
                                                                                                            Ok((m12, p12)) => {
                                                                                                                match T13::spec_read(StreamView { data: s.data, pos: p12 }, endian, ()) {
                                                                                                                    Err(e) => Err(e),
                                                                                                                    Ok((m13, p13)) => {
                                                                                                                        match T14::spec_read(StreamView { data: s.data, pos: p13 }, endian, ()) {
                                                                                                                            Err(e) => Err(e),
                                                                                                                            Ok((m14, p14)) => {
                                                                                                                                match T15::spec_read(StreamView { data: s.data, pos: p14 }, endian, ()) {
                                                                                                                                    Err(e) => Err(e),
                                                                                                                                    Ok((m15, p15)) => {
                                                                                                                                        match T16::spec_read(StreamView { data: s.data, pos: p15 }, endian, ()) {
                                                                                                                                            Err(e) => Err(e),
                                                                                                                                            Ok((m16, p16)) => Ok(((m0, m1, m2, m3, m4, m5, m6, m7, m8, m9, m10, m11, m12, m13, m14, m15, m16), p16)),
                                                                                                                                        }
                                                                                                                                    },
                                                                                                                                }
                                                                                                                            },
                                                                                                                        }
                                                                                                                    },
                                                                                                                }
                                                                                                            },
                                                                                                        }
                                                                                                    },
                                                                                                }
                                                                                            },
                                                                                        }
                                                                                    },
                                                                                }
                                                                            },
                                                                        }
                                                                    },
                                                                }
                                                            },
                                                        }
                                                    },
                                                }
                                            },
                                        }
                                    },
                                }
                            },
                        }
                    },
                }
            },
        }
    }

    open spec fn spec_after(m: (T0::Model, T1::Model, T2::Model, T3::Model, T4::Model, T5::Model, T6::Model, T7::Model, T8::Model, T9::Model, T10::Model, T11::Model, T12::Model, T13::Model, T14::Model, T15::Model, T16::Model), s: StreamView, endian: Endian, args: ()) -> Result<
        ((T0::Model, T1::Model, T2::Model, T3::Model, T4::Model, T5::Model, T6::Model, T7::Model, T8::Model, T9::Model, T10::Model, T11::Model, T12::Model, T13::Model, T14::Model, T15::Model, T16::Model), int),
        Error,
    > {
        match T0::spec_after(m.0, s, endian, ()) {
            Err(e) => Err(e),
            Ok((m0, p0)) => {
                match T1::spec_after(m.1, StreamView { data: s.data, pos: p0 }, endian, ()) {
                    Err(e) => Err(e),
                    Ok((m1, p1)) => {
                        match T2::spec_after(m.2, StreamView { data: s.data, pos: p1 }, endian, ()) {
                            Err(e) => Err(e),
                            Ok((m2, p2)) => {
                                match T3::spec_after(m.3, StreamView { data: s.data, pos: p2 }, endian, ()) {
                                    Err(e) => Err(e),
                                    Ok((m3, p3)) => {
                                        match T4::spec_after(m.4, StreamView { data: s.data, pos: p3 }, endian, ()) {
                                            Err(e) => Err(e),
                                            Ok((m4, p4)) => {
                                                match T5::spec_after(m.5, StreamView { data: s.data, pos: p4 }, endian, ()) {
                                                    Err(e) => Err(e),
                                                    Ok((m5, p5)) => {
                                                        match T6::spec_after(m.6, StreamView { data: s.data, pos: p5 }, endian, ()) {
                                                            Err(e) => Err(e),
                                                            Ok((m6, p6)) => {
                                                                match T7::spec_after(m.7, StreamView { data: s.data, pos: p6 }, endian, ()) {
                                                                    Err(e) => Err(e),
                                                                    Ok((m7, p7)) => {
                                                                        match T8::spec_after(m.8, StreamView { data: s.data, pos: p7 }, endian, ()) {
                                                                            Err(e) => Err(e),
                                                                            Ok((m8, p8)) => {
                                                                                match T9::spec_after(m.9, StreamView { data: s.data, pos: p8 }, endian, ()) {
                                                                                    Err(e) => Err(e),
                                                                                    Ok((m9, p9)) => {
                                                                                        match T10::spec_after(m.10, StreamView { data: s.data, pos: p9 }, endian, ()) {
                                                                                            Err(e) => Err(e),
                                                                                            Ok((m10, p10)) => {
                                                                                                match T11::spec_after(m.11, StreamView { data: s.data, pos: p10 }, endian, ()) {
                                                                                                    Err(e) => Err(e),
                                                                                                    Ok((m11, p11)) => {
                                                                                                        match T12::spec_after(m.12, StreamView { data: s.data, pos: p11 }, endian, ()) {
                                                                                                            Err(e) => Err(e),
                                                                                                            Ok((m12, p12)) => {
                                                                                                                match T13::spec_after(m.13, StreamView { data: s.data, pos: p12 }, endian, ()) {
                                                                                                                    Err(e) => Err(e),
                                                                                                                    Ok((m13, p13)) => {
                                                                                                                        match T14::spec_after(m.14, StreamView { data: s.data, pos: p13 }, endian, ()) {
                                                                                                                            Err(e) => Err(e),
                                                                                                                            Ok((m14, p14)) => {
                                                                                                                                match T15::spec_after(m.15, StreamView { data: s.data, pos: p14 }, endian, ()) {
                                                                                                                                    Err(e) => Err(e),
                                                                                                                                    Ok((m15, p15)) => {
                                                                                                                                        match T16::spec_after(m.16, StreamView { data: s.data, pos: p15 }, endian, ()) {
                                                                                                                                            Err(e) => Err(e),
                                                                                                                                            Ok((m16, p16)) => Ok(((m0, m1, m2, m3, m4, m5, m6, m7, m8, m9, m10, m11, m12, m13, m14, m15, m16), p16)),
                                                                                                                                        }
                                                                                                                                    },
                                                                                                                                }
                                                                                                                            },
                                                                                                                        }
                                                                                                                    },
                                                                                                                }
                                                                                                            },
                                                                                                        }
                                                                                                    },
                                                                                                }
                                                                                            },
                                                                                        }
                                                                                    },
                                                                                }
                                                                            },
                                                                        }
                                                                    },
                                                                }
                                                            },
                                                        }
                                                    },
                                                }
                                            },
                                        }
                                    },
                                }
                            },
                        }
                    },
                }
            },
        }
    }

    open spec fn restores_on_failure() -> bool {
        false
    }

    fn read_options(reader: &mut Cursor, options: &ReadOptions, args: ()) -> (r: BinResult<
        (T0, T1, T2, T3, T4, T5, T6, T7, T8, T9, T10, T11, T12, T13, T14, T15, T16),
    >) {
        proof {
            assert(!Self::restores_on_failure());
        }
        let v0 = match T0::read_options(reader, options, ()) {
            Ok(v) => v,
            Err(e) => {
                return Err(e);
            },
        };
        let v1 = match T1::read_options(reader, options, ()) {
            Ok(v) => v,
            Err(e) => {
                return Err(e);
            },
        };
        let v2 = match T2::read_options(reader, options, ()) {
            Ok(v) => v,
            Err(e) => {
                return Err(e);
            },
        };
        let v3 = match T3::read_options(reader, options, ()) {
            Ok(v) => v,
            Err(e) => {
                return Err(e);
            },
        };
        let v4 = match T4::read_options(reader, options, ()) {
            Ok(v) => v,
            Err(e) => {
                return Err(e);
            },
        };
        let v5 = match T5::read_options(reader, options, ()) {
            Ok(v) => v,
            Err(e) => {
                return Err(e);
            },
        };
        let v6 = match T6::read_options(reader, options, ()) {
            Ok(v) => v,
            Err(e) => {
                return Err(e);
            },
        };
        let v7 = match T7::read_options(reader, options, ()) {
            Ok(v) => v,
            Err(e) => {
                return Err(e);
            },
        };
        let v8 = match T8::read_options(reader, options, ()) {
            Ok(v) => v,
            Err(e) => {
                return Err(e);
            },
        };
        let v9 = match T9::read_options(reader, options, ()) {
            Ok(v) => v,
            Err(e) => {
                return Err(e);
            },
        };
        let v10 = match T10::read_options(reader, options, ()) {
            Ok(v) => v,
            Err(e) => {
                return Err(e);
            },
        };
        let v11 = match T11::read_options(reader, options, ()) {
            Ok(v) => v,
            Err(e) => {
                return Err(e);
            },
        };
        let v12 = match T12::read_options(reader, options, ()) {
            Ok(v) => v,
            Err(e) => {
                return Err(e);
            },
        };
        let v13 = match T13::read_options(reader, options, ()) {
            Ok(v) => v,
            Err(e) => {
                return Err(e);
            },
        };
        let v14 = match T14::read_options(reader, options, ()) {
            Ok(v) => v,
            Err(e) => {
                return Err(e);
            },
        };
        let v15 = match T15::read_options(reader, options, ()) {
            Ok(v) => v,
            Err(e) => {
                return Err(e);
            },
        };
        let v16 = match T16::read_options(reader, options, ()) {
            Ok(v) => v,
            Err(e) => {
                return Err(e);
            },
        };
        Ok((v0, v1, v2, v3, v4, v5, v6, v7, v8, v9, v10, v11, v12, v13, v14, v15, v16))
    }

    fn after_parse(self, reader: &mut Cursor, options: &ReadOptions, args: ()) -> (r: BinResult<
        (T0, T1, T2, T3, T4, T5, T6, T7, T8, T9, T10, T11, T12, T13, T14, T15, T16),
    >) {
        let (x0, x1, x2, x3, x4, x5, x6, x7, x8, x9, x10, x11, x12, x13, x14, x15, x16) = self;
        let v0 = match x0.after_parse(reader, options, ()) {
            Ok(v) => v,
            Err(e) => {
                return Err(e);
            },
        };
        let v1 = match x1.after_parse(reader, options, ()) {
            Ok(v) => v,
            Err(e) => {
                return Err(e);
            },
        };
        let v2 = match x2.after_parse(reader, options, ()) {
            Ok(v) => v,
            Err(e) => {
                return Err(e);
            },
        };
        let v3 = match x3.after_parse(reader, options, ()) {
            Ok(v) => v,
            Err(e) => {
                return Err(e);
            },
        };
        let v4 = match x4.after_parse(reader, options, ()) {
            Ok(v) => v,
            Err(e) => {
                return Err(e);
            },
        };
        let v5 = match x5.after_parse(reader, options, ()) {
            Ok(v) => v,
            Err(e) => {
                return Err(e);
            },
        };
        let v6 = match x6.after_parse(reader, options, ()) {
            Ok(v) => v,
            Err(e) => {
                return Err(e);
            },
        };
        let v7 = match x7.after_parse(reader, options, ()) {
            Ok(v) => v,
            Err(e) => {
                return Err(e);
            },
        };
        let v8 = match x8.after_parse(reader, options, ()) {
            Ok(v) => v,
            Err(e) => {
                return Err(e);
            },
        };
        let v9 = match x9.after_parse(reader, options, ()) {
            Ok(v) => v,
            Err(e) => {
                return Err(e);
            },
        };
        let v10 = match x10.after_parse(reader, options, ()) {
            Ok(v) => v,
            Err(e) => {
                return Err(e);
            },
        };
        let v11 = match x11.after_parse(reader, options, ()) {
            Ok(v) => v,
            Err(e) => {
                return Err(e);
            },
        };
        let v12 = match x12.after_parse(reader, options, ()) {
            Ok(v) => v,
            Err(e) => {
                return Err(e);
            },
        };
        let v13 = match x13.after_parse(reader, options, ()) {
            Ok(v) => v,
            Err(e) => {
                return Err(e);
            },
        };
        let v14 = match x14.after_parse(reader, options, ()) {
            Ok(v) => v,
            Err(e) => {
                return Err(e);
            },
        };
        let v15 = match x15.after_parse(reader, options, ()) {
            Ok(v) => v,
            Err(e) => {
                return Err(e);
            },
        };
        let v16 = match x16.after_parse(reader, options, ()) {
            Ok(v) => v,
            Err(e) => {
                return Err(e);
            },
        };
        Ok((v0, v1, v2, v3, v4, v5, v6, v7, v8, v9, v10, v11, v12, v13, v14, v15, v16))
    }
}

impl<T0: BinRead<Args = ()>, T1: BinRead<Args = ()>, T2: BinRead<Args = ()>, T3: BinRead<Args = ()>, T4: BinRead<Args = ()>, T5: BinRead<Args = ()>, T6: BinRead<Args = ()>, T7: BinRead<Args = ()>, T8: BinRead<Args = ()>, T9: BinRead<Args = ()>, T10: BinRead<Args = ()>, T11: BinRead<Args = ()>, T12: BinRead<Args = ()>, T13: BinRead<Args = ()>, T14: BinRead<Args = ()>, T15: BinRead<Args = ()>, T16: BinRead<Args = ()>, T17: BinRead<Args = ()>> BinRead for (T0, T1, T2, T3, T4, T5, T6, T7, T8, T9, T10, T11, T12, T13, T14, T15, T16, T17) {
    type Args = ();

    type Model = (T0::Model, T1::Model, T2::Model, T3::Model, T4::Model, T5::Model, T6::Model, T7::Model, T8::Model, T9::Model, T10::Model, T11::Model, T12::Model, T13::Model, T14::Model, T15::Model, T16::Model, T17::Model);

    open spec fn model(self) -> (T0::Model, T1::Model, T2::Model, T3::Model, T4::Model, T5::Model, T6::Model, T7::Model, T8::Model, T9::Model, T10::Model, T11::Model, T12::Model, T13::Model, T14::Model, T15::Model, T16::Model, T17::Model) {
        (self.0.model(), self.1.model(), self.2.model(), self.3.model(), self.4.model(), self.5.model(), self.6.model(), self.7.model(), self.8.model(), self.9.model(), self.10.model(), self.11.model(), self.12.model(), self.13.model(), self.14.model(), self.15.model(), self.16.model(), self.17.model())
    }

    open spec fn spec_read(s: StreamView, endian: Endian, args: ()) -> Result<
        ((T0::Model, T1::Model, T2::Model, T3::Model, T4::Model, T5::Model, T6::Model, T7::Model, T8::Model, T9::Model, T10::Model, T11::Model, T12::Model, T13::Model, T14::Model, T15::Model, T16::Model, T17::Model), int),
        Error,
    > {
        match T0::spec_read(s, endian, ()) {
            Err(e) => Err(e),
            Ok((m0, p0)) => {
                match T1::spec_read(StreamView { data: s.data, pos: p0 }, endian, ()) {
                    Err(e) => Err(e),
                    Ok((m1, p1)) => {
                        match T2::spec_read(StreamView { data: s.data, pos: p1 }, endian, ()) {
                            Err(e) => Err(e),
                            Ok((m2, p2)) => {
                                match T3::spec_read(StreamView { data: s.data, pos: p2 }, endian, ()) {
                                    Err(e) => Err(e),
                                    Ok((m3, p3)) => {
                                        match T4::spec_read(StreamView { data: s.data, pos: p3 }, endian, ()) {
                                            Err(e) => Err(e),
                                            Ok((m4, p4)) => {
                                                match T5::spec_read(StreamView { data: s.data, pos: p4 }, endian, ()) {
                                                    Err(e) => Err(e),
                                                    Ok((m5, p5)) => {
                                                        match T6::spec_read(StreamView { data: s.data, pos: p5 }, endian, ()) {
                                                            Err(e) => Err(e),
                                                            Ok((m6, p6)) => {
                                                                match T7::spec_read(StreamView { data: s.data, pos: p6 }, endian, ()) {
                                                                    Err(e) => Err(e),
                                                                    Ok((m7, p7)) => {
                                                                        match T8::spec_read(StreamView { data: s.data, pos: p7 }, endian, ()) {
                                                                            Err(e) => Err(e),
                                                                            Ok((m8, p8)) => {
                                                                                match T9::spec_read(StreamView { data: s.data, pos: p8 }, endian, ()) {
                                                                                    Err(e) => Err(e),
                                                                                    Ok((m9, p9)) => {
                                                                                        match T10::spec_read(StreamView { data: s.data, pos: p9 }, endian, ()) {
                                                                                            Err(e) => Err(e),
                                                                                            Ok((m10, p10)) => {
                                                                                                match T11::spec_read(StreamView { data: s.data, pos: p10 }, endian, ()) {
                                                                                                    Err(e) => Err(e),
                                                                                                    Ok((m11, p11)) => {
                                                                                                        match T12::spec_read(StreamView { data: s.data, pos: p11 }, endian, ()) {
                                                                                                            Err(e) => Err(e),
                                                                                                            Ok((m12, p12)) => {
                                                                                                                match T13::spec_read(StreamView { data: s.data, pos: p12 }, endian, ()) {
                                                                                                                    Err(e) => Err(e),
                                                                                                                    Ok((m13, p13)) => {
                                                                                                                        match T14::spec_read(StreamView { data: s.data, pos: p13 }, endian, ()) {
                                                                                                                            Err(e) => Err(e),
                                                                                                                            Ok((m14, p14)) => {
                                                                                                                                match T15::spec_read(StreamView { data: s.data, pos: p14 }, endian, ()) {
                                                                                                                                    Err(e) => Err(e),
                                                                                                                                    Ok((m15, p15)) => {
                                                                                                                                        match T16::spec_read(StreamView { data: s.data, pos: p15 }, endian, ()) {
                                                                                                                                            Err(e) => Err(e),
                                                                                                                                            Ok((m16, p16)) => {
                                                                                                                                                match T17::spec_read(StreamView { data: s.data, pos: p16 }, endian, ()) {
                                                                                                                                                    Err(e) => Err(e),
                                                                                                                                                    Ok((m17, p17)) => Ok(((m0, m1, m2, m3, m4, m5, m6, m7, m8, m9, m10, m11, m12, m13, m14, m15, m16, m17), p17)),
                                                                                                                                                }
                                                                                                                                            },
                                                                                                                                        }
                                                                                                                                    },
                                                                                                                                }
                                                                                                                            },
                                                                                                                        }
                                                                                                                    },
                                                                                                                }
                                                                                                            },
                                                                                                        }
                                                                                                    },
                                                                                                }
                                                                                            },
                                                                                        }
                                                                                    },
                                                                                }
                                                                            },
                                                                        }
                                                                    },
                                                                }
                                                            },
                                                        }
                                                    },
                                                }
                                            },
                                        }
                                    },
                                }
                            },
                        }
                    },
                }
            },
        }
    }

    open spec fn spec_after(m: (T0::Model, T1::Model, T2::Model, T3::Model, T4::Model, T5::Model, T6::Model, T7::Model, T8::Model, T9::Model, T10::Model, T11::Model, T12::Model, T13::Model, T14::Model, T15::Model, T16::Model, T17::Model), s: StreamView, endian: Endian, args: ()) -> Result<
        ((T0::Model, T1::Model, T2::Model, T3::Model, T4::Model, T5::Model, T6::Model, T7::Model, T8::Model, T9::Model, T10::Model, T11::Model, T12::Model, T13::Model, T14::Model, T15::Model, T16::Model, T17::Model), int),
        Error,
    > {
        match T0::spec_after(m.0, s, endian, ()) {
            Err(e) => Err(e),
            Ok((m0, p0)) => {
                match T1::spec_after(m.1, StreamView { data: s.data, pos: p0 }, endian, ()) {
                    Err(e) => Err(e),
                    Ok((m1, p1)) => {
                        match T2::spec_after(m.2, StreamView { data: s.data, pos: p1 }, endian, ()) {
                            Err(e) => Err(e),
                            Ok((m2, p2)) => {
                                match T3::spec_after(m.3, StreamView { data: s.data, pos: p2 }, endian, ()) {
                                    Err(e) => Err(e),
                                    Ok((m3, p3)) => {
                                        match T4::spec_after(m.4, StreamView { data: s.data, pos: p3 }, endian, ()) {
                                            Err(e) => Err(e),
                                            Ok((m4, p4)) => {
                                                match T5::spec_after(m.5, StreamView { data: s.data, pos: p4 }, endian, ()) {
                                                    Err(e) => Err(e),
                                                    Ok((m5, p5)) => {
                                                        match T6::spec_after(m.6, StreamView { data: s.data, pos: p5 }, endian, ()) {
                                                            Err(e) => Err(e),
                                                            Ok((m6, p6)) => {
                                                                match T7::spec_after(m.7, StreamView { data: s.data, pos: p6 }, endian, ()) {
                                                                    Err(e) => Err(e),
                                                                    Ok((m7, p7)) => {
                                                                        match T8::spec_after(m.8, StreamView { data: s.data, pos: p7 }, endian, ()) {
                                                                            Err(e) => Err(e),
                                                                            Ok((m8, p8)) => {
                                                                                match T9::spec_after(m.9, StreamView { data: s.data, pos: p8 }, endian, ()) {
                                                                                    Err(e) => Err(e),
                                                                                    Ok((m9, p9)) => {
                                                                                        match T10::spec_after(m.10, StreamView { data: s.data, pos: p9 }, endian, ()) {
                                                                                            Err(e) => Err(e),
                                                                                            Ok((m10, p10)) => {
                                                                                                match T11::spec_after(m.11, StreamView { data: s.data, pos: p10 }, endian, ()) {
                                                                                                    Err(e) => Err(e),
                                                                                                    Ok((m11, p11)) => {
                                                                                                        match T12::spec_after(m.12, StreamView { data: s.data, pos: p11 }, endian, ()) {
                                                                                                            Err(e) => Err(e),
                                                                                                            Ok((m12, p12)) => {
                                                                                                                match T13::spec_after(m.13, StreamView { data: s.data, pos: p12 }, endian, ()) {
                                                                                                                    Err(e) => Err(e),
                                                                                                                    Ok((m13, p13)) => {
                                                                                                                        match T14::spec_after(m.14, StreamView { data: s.data, pos: p13 }, endian, ()) {
                                                                                                                            Err(e) => Err(e),
                                                                                                                            Ok((m14, p14)) => {
                                                                                                                                match T15::spec_after(m.15, StreamView { data: s.data, pos: p14 }, endian, ()) {
                                                                                                                                    Err(e) => Err(e),
                                                                                                                                    Ok((m15, p15)) => {
                                                                                                                                        match T16::spec_after(m.16, StreamView { data: s.data, pos: p15 }, endian, ()) {
                                                                                                                                            Err(e) => Err(e),
                                                                                                                                            Ok((m16, p16)) => {
                                                                                                                                                match T17::spec_after(m.17, StreamView { data: s.data, pos: p16 }, endian, ()) {
                                                                                                                                                    Err(e) => Err(e),
                                                                                                                                                    Ok((m17, p17)) => Ok(((m0, m1, m2, m3, m4, m5, m6, m7, m8, m9, m10, m11, m12, m13, m14, m15, m16, m17), p17)),
                                                                                                                                                }
                                                                                                                                            },
                                                                                                                                        }
                                                                                                                                    },
                                                                                                                                }
                                                                                                                            },
                                                                                                                        }
                                                                                                                    },
                                                                                                                }
                                                                                                            },
                                                                                                        }
                                                                                                    },
                                                                                                }
                                                                                            },
                                                                                        }
                                                                                    },
                                                                                }
                                                                            },
                                                                        }
                                                                    },
                                                                }
                                                            },
                                                        }
                                                    },
                                                }
                                            },
                                        }
                                    },
                                }
                            },
                        }
                    },
                }
            },
        }
    }

    open spec fn restores_on_failure() -> bool {
        false
    }

    fn read_options(reader: &mut Cursor, options: &ReadOptions, args: ()) -> (r: BinResult<
        (T0, T1, T2, T3, T4, T5, T6, T7, T8, T9, T10, T11, T12, T13, T14, T15, T16, T17),
    >) {
        proof {
            assert(!Self::restores_on_failure());
        }
        let v0 = match T0::read_options(reader, options, ()) {
            Ok(v) => v,
            Err(e) => {
                return Err(e);
            },
        };
        let v1 = match T1::read_options(reader, options, ()) {
            Ok(v) => v,
            Err(e) => {
                return Err(e);
            },
        };
        let v2 = match T2::read_options(reader, options, ()) {
            Ok(v) => v,
            Err(e) => {
                return Err(e);
            },
        };
        let v3 = match T3::read_options(reader, options, ()) {
            Ok(v) => v,
            Err(e) => {
                return Err(e);
            },
        };
        let v4 = match T4::read_options(reader, options, ()) {
            Ok(v) => v,
            Err(e) => {
                return Err(e);
            },
        };
        let v5 = match T5::read_options(reader, options, ()) {
            Ok(v) => v,
            Err(e) => {
                return Err(e);
            },
        };
        let v6 = match T6::read_options(reader, options, ()) {
            Ok(v) => v,
            Err(e) => {
                return Err(e);
            },
        };
        let v7 = match T7::read_options(reader, options, ()) {
            Ok(v) => v,
            Err(e) => {
                return Err(e);
            },
        };
        let v8 = match T8::read_options(reader, options, ()) {
            Ok(v) => v,
            Err(e) => {
                return Err(e);
            },
        };
        let v9 = match T9::read_options(reader, options, ()) {
            Ok(v) => v,
            Err(e) => {
                return Err(e);
            },
        };
        let v10 = match T10::read_options(reader, options, ()) {
            Ok(v) => v,
            Err(e) => {
                return Err(e);
            },
        };
        let v11 = match T11::read_options(reader, options, ()) {
            Ok(v) => v,
            Err(e) => {
                return Err(e);
            },
        };
        let v12 = match T12::read_options(reader, options, ()) {
            Ok(v) => v,
            Err(e) => {
                return Err(e);
            },
        };
        let v13 = match T13::read_options(reader, options, ()) {
            Ok(v) => v,
            Err(e) => {
                return Err(e);
            },
        };
        let v14 = match T14::read_options(reader, options, ()) {
            Ok(v) => v,
            Err(e) => {
                return Err(e);
            },
        };
        let v15 = match T15::read_options(reader, options, ()) {
            Ok(v) => v,
            Err(e) => {
                return Err(e);
            },
        };
        let v16 = match T16::read_options(reader, options, ()) {
            Ok(v) => v,
            Err(e) => {
                return Err(e);
            },
        };
        let v17 = match T17::read_options(reader, options, ()) {
            Ok(v) => v,
            Err(e) => {
                return Err(e);
            },
        };
        Ok((v0, v1, v2, v3, v4, v5, v6, v7, v8, v9, v10, v11, v12, v13, v14, v15, v16, v17))
    }

    fn after_parse(self, reader: &mut Cursor, options: &ReadOptions, args: ()) -> (r: BinResult<
        (T0, T1, T2, T3, T4, T5, T6, T7, T8, T9, T10, T11, T12, T13, T14, T15, T16, T17),
    >) {
        let (x0, x1, x2, x3, x4, x5, x6, x7, x8, x9, x10, x11, x12, x13, x14, x15, x16, x17) = self;
        let v0 = match x0.after_parse(reader, options, ()) {
            Ok(v) => v,
            Err(e) => {
                return Err(e);
            },
        };
        let v1 = match x1.after_parse(reader, options, ()) {
            Ok(v) => v,
            Err(e) => {
                return Err(e);
            },
        };
        let v2 = match x2.after_parse(reader, options, ()) {
            Ok(v) => v,
            Err(e) => {
                return Err(e);
            },
        };
        let v3 = match x3.after_parse(reader, options, ()) {
            Ok(v) => v,
            Err(e) => {
                return Err(e);
            },
        };
        let v4 = match x4.after_parse(reader, options, ()) {
            Ok(v) => v,
            Err(e) => {
                return Err(e);
            },
        };
        let v5 = match x5.after_parse(reader, options, ()) {
            Ok(v) => v,
            Err(e) => {
                return Err(e);
            },
        };
        let v6 = match x6.after_parse(reader, options, ()) {
            Ok(v) => v,
            Err(e) => {
                return Err(e);
            },
        };
        let v7 = match x7.after_parse(reader, options, ()) {
            Ok(v) => v,
            Err(e) => {
                return Err(e);
            },
        };
        let v8 = match x8.after_parse(reader, options, ()) {
            Ok(v) => v,
            Err(e) => {
                return Err(e);
            },
        };
        let v9 = match x9.after_parse(reader, options, ()) {
            Ok(v) => v,
            Err(e) => {
                return Err(e);
            },
        };
        let v10 = match x10.after_parse(reader, options, ()) {
            Ok(v) => v,
            Err(e) => {
                return Err(e);
            },
        };
        let v11 = match x11.after_parse(reader, options, ()) {
            Ok(v) => v,
            Err(e) => {
                return Err(e);
            },
        };
        let v12 = match x12.after_parse(reader, options, ()) {
            Ok(v) => v,
            Err(e) => {
                return Err(e);
            },
        };
        let v13 = match x13.after_parse(reader, options, ()) {
            Ok(v) => v,
            Err(e) => {
                return Err(e);
            },
        };
        let v14 = match x14.after_parse(reader, options, ()) {
            Ok(v) => v,
            Err(e) => {
                return Err(e);
            },
        };
        let v15 = match x15.after_parse(reader, options, ()) {
            Ok(v) => v,
            Err(e) => {
                return Err(e);
            },
        };
        let v16 = match x16.after_parse(reader, options, ()) {
            Ok(v) => v,
            Err(e) => {
                return Err(e);
            },
        };
        let v17 = match x17.after_parse(reader, options, ()) {
            Ok(v) => v,
            Err(e) => {
                return Err(e);
            },
        };
        Ok((v0, v1, v2, v3, v4, v5, v6, v7, v8, v9, v10, v11, v12, v13, v14, v15, v16, v17))
    }
}

impl<T0: BinRead<Args = ()>, T1: BinRead<Args = ()>, T2: BinRead<Args = ()>, T3: BinRead<Args = ()>, T4: BinRead<Args = ()>, T5: BinRead<Args = ()>, T6: BinRead<Args = ()>, T7: BinRead<Args = ()>, T8: BinRead<Args = ()>, T9: BinRead<Args = ()>, T10: BinRead<Args = ()>, T11: BinRead<Args = ()>, T12: BinRead<Args = ()>, T13: BinRead<Args = ()>, T14: BinRead<Args = ()>, T15: BinRead<Args = ()>, T16: BinRead<Args = ()>, T17: BinRead<Args = ()>, T18: BinRead<Args = ()>> BinRead for (T0, T1, T2, T3, T4, T5, T6, T7, T8, T9, T10, T11, T12, T13, T14, T15, T16, T17, T18) {
    type Args = ();

    type Model = (T0::Model, T1::Model, T2::Model, T3::Model, T4::Model, T5::Model, T6::Model, T7::Model, T8::Model, T9::Model, T10::Model, T11::Model, T12::Model, T13::Model, T14::Model, T15::Model, T16::Model, T17::Model, T18::Model);

    open spec fn model(self) -> (T0::Model, T1::Model, T2::Model, T3::Model, T4::Model, T5::Model, T6::Model, T7::Model, T8::Model, T9::Model, T10::Model, T11::Model, T12::Model, T13::Model, T14::Model, T15::Model, T16::Model, T17::Model, T18::Model) {
        (self.0.model(), self.1.model(), self.2.model(), self.3.model(), self.4.model(), self.5.model(), self.6.model(), self.7.model(), self.8.model(), self.9.model(), self.10.model(), self.11.model(), self.12.model(), self.13.model(), self.14.model(), self.15.model(), self.16.model(), self.17.model(), self.18.model())
    }

    open spec fn spec_read(s: StreamView, endian: Endian, args: ()) -> Result<
        ((T0::Model, T1::Model, T2::Model, T3::Model, T4::Model, T5::Model, T6::Model, T7::Model, T8::Model, T9::Model, T10::Model, T11::Model, T12::Model, T13::Model, T14::Model, T15::Model, T16::Model, T17::Model, T18::Model), int),
        Error,
    > {
        match T0::spec_read(s, endian, ()) {
            Err(e) => Err(e),
            Ok((m0, p0)) => {
                match T1::spec_read(StreamView { data: s.data, pos: p0 }, endian, ()) {
                    Err(e) => Err(e),
                    Ok((m1, p1)) => {
                        match T2::spec_read(StreamView { data: s.data, pos: p1 }, endian, ()) {
                            Err(e) => Err(e),
                            Ok((m2, p2)) => {
                                match T3::spec_read(StreamView { data: s.data, pos: p2 }, endian, ()) {
                                    Err(e) => Err(e),
                                    Ok((m3, p3)) => {
                                        match T4::spec_read(StreamView { data: s.data, pos: p3 }, endian, ()) {
                                            Err(e) => Err(e),
                                            Ok((m4, p4)) => {
                                                match T5::spec_read(StreamView { data: s.data, pos: p4 }, endian, ()) {
                                                    Err(e) => Err(e),
                                                    Ok((m5, p5)) => {
                                                        match T6::spec_read(StreamView { data: s.data, pos: p5 }, endian, ()) {
                                                            Err(e) => Err(e),
                                                            Ok((m6, p6)) => {
                                                                match T7::spec_read(StreamView { data: s.data, pos: p6 }, endian, ()) {
                                                                    Err(e) => Err(e),
                                                                    Ok((m7, p7)) => {
                                                                        match T8::spec_read(StreamView { data: s.data, pos: p7 }, endian, ()) {
                                                                            Err(e) => Err(e),
                                                                            Ok((m8, p8)) => {
                                                                                match T9::spec_read(StreamView { data: s.data, pos: p8 }, endian, ()) {
                                                                                    Err(e) => Err(e),
                                                                                    Ok((m9, p9)) => {
                                                                                        match T10::spec_read(StreamView { data: s.data, pos: p9 }, endian, ()) {
                                                                                            Err(e) => Err(e),
                                                                                            Ok((m10, p10)) => {
                                                                                                match T11::spec_read(StreamView { data: s.data, pos: p10 }, endian, ()) {
                                                                                                    Err(e) => Err(e),
                                                                                                    Ok((m11, p11)) => {
                                                                                                        match T12::spec_read(StreamView { data: s.data, pos: p11 }, endian, ()) {
                                                                                                            Err(e) => Err(e),
                                                                                                            Ok((m12, p12)) => {
                                                                                                                match T13::spec_read(StreamView { data: s.data, pos: p12 }, endian, ()) {
                                                                                                                    Err(e) => Err(e),
                                                                                                                    Ok((m13, p13)) => {
                                                                                                                        match T14::spec_read(StreamView { data: s.data, pos: p13 }, endian, ()) {
                                                                                                                            Err(e) => Err(e),
                                                                                                                            Ok((m14, p14)) => {
                                                                                                                                match T15::spec_read(StreamView { data: s.data, pos: p14 }, endian, ()) {
                                                                                                                                    Err(e) => Err(e),
                                                                                                                                    Ok((m15, p15)) => {
                                                                                                                                        match T16::spec_read(StreamView { data: s.data, pos: p15 }, endian, ()) {
                                                                                                                                            Err(e) => Err(e),
                                                                                                                                            Ok((m16, p16)) => {
                                                                                                                                                match T17::spec_read(StreamView { data: s.data, pos: p16 }, endian, ()) {
                                                                                                                                                    Err(e) => Err(e),
                                                                                                                                                    Ok((m17, p17)) => {
                                                                                                                                                        match T18::spec_read(StreamView { data: s.data, pos: p17 }, endian, ()) {
                                                                                                                                                            Err(e) => Err(e),
                                                                                                                                                            Ok((m18, p18)) => Ok(((m0, m1, m2, m3, m4, m5, m6, m7, m8, m9, m10, m11, m12, m13, m14, m15, m16, m17, m18), p18)),
                                                                                                                                                        }
                                                                                                                                                    },
                                                                                                                                                }
                                                                                                                                            },
                                                                                                                                        }
                                                                                                                                    },
                                                                                                                                }
                                                                                                                            },
                                                                                                                        }
                                                                                                                    },
                                                                                                                }
                                                                                                            },
                                                                                                        }
                                                                                                    },
                                                                                                }
                                                                                            },
                                                                                        }
                                                                                    },
                                                                                }
                                                                            },
                                                                        }
                                                                    },
                                                                }
                                                            },
                                                        }
                                                    },
                                                }
                                            },
                                        }
                                    },
                                }
                            },
                        }
                    },
                }
            },
        }
    }

    open spec fn spec_after(m: (T0::Model, T1::Model, T2::Model, T3::Model, T4::Model, T5::Model, T6::Model, T7::Model, T8::Model, T9::Model, T10::Model, T11::Model, T12::Model, T13::Model, T14::Model, T15::Model, T16::Model, T17::Model, T18::Model), s: StreamView, endian: Endian, args: ()) -> Result<
        ((T0::Model, T1::Model, T2::Model, T3::Model, T4::Model, T5::Model, T6::Model, T7::Model, T8::Model, T9::Model, T10::Model, T11::Model, T12::Model, T13::Model, T14::Model, T15::Model, T16::Model, T17::Model, T18::Model), int),
        Error,
    > {
        match T0::spec_after(m.0, s, endian, ()) {
            Err(e) => Err(e),
            Ok((m0, p0)) => {
                match T1::spec_after(m.1, StreamView { data: s.data, pos: p0 }, endian, ()) {
                    Err(e) => Err(e),
                    Ok((m1, p1)) => {
                        match T2::spec_after(m.2, StreamView { data: s.data, pos: p1 }, endian, ()) {
                            Err(e) => Err(e),
                            Ok((m2, p2)) => {
                                match T3::spec_after(m.3, StreamView { data: s.data, pos: p2 }, endian, ()) {
                                    Err(e) => Err(e),
                                    Ok((m3, p3)) => {
                                        match T4::spec_after(m.4, StreamView { data: s.data, pos: p3 }, endian, ()) {
                                            Err(e) => Err(e),
                                            Ok((m4, p4)) => {
                                                match T5::spec_after(m.5, StreamView { data: s.data, pos: p4 }, endian, ()) {
                                                    Err(e) => Err(e),
                                                    Ok((m5, p5)) => {
                                                        match T6::spec_after(m.6, StreamView { data: s.data, pos: p5 }, endian, ()) {
                                                            Err(e) => Err(e),
                                                            Ok((m6, p6)) => {
                                                                match T7::spec_after(m.7, StreamView { data: s.data, pos: p6 }, endian, ()) {
                                                                    Err(e) => Err(e),
                                                                    Ok((m7, p7)) => {
                                                                        match T8::spec_after(m.8, StreamView { data: s.data, pos: p7 }, endian, ()) {
                                                                            Err(e) => Err(e),
                                                                            Ok((m8, p8)) => {
                                                                                match T9::spec_after(m.9, StreamView { data: s.data, pos: p8 }, endian, ()) {
                                                                                    Err(e) => Err(e),
                                                                                    Ok((m9, p9)) => {
                                                                                        match T10::spec_after(m.10, StreamView { data: s.data, pos: p9 }, endian, ()) {
                                                                                            Err(e) => Err(e),
                                                                                            Ok((m10, p10)) => {
                                                                                                match T11::spec_after(m.11, StreamView { data: s.data, pos: p10 }, endian, ()) {
                                                                                                    Err(e) => Err(e),
                                                                                                    Ok((m11, p11)) => {
                                                                                                        match T12::spec_after(m.12, StreamView { data: s.data, pos: p11 }, endian, ()) {
                                                                                                            Err(e) => Err(e),
                                                                                                            Ok((m12, p12)) => {
                                                                                                                match T13::spec_after(m.13, StreamView { data: s.data, pos: p12 }, endian, ()) {
                                                                                                                    Err(e) => Err(e),
                                                                                                                    Ok((m13, p13)) => {
                                                                                                                        match T14::spec_after(m.14, StreamView { data: s.data, pos: p13 }, endian, ()) {
                                                                                                                            Err(e) => Err(e),
                                                                                                                            Ok((m14, p14)) => {
                                                                                                                                match T15::spec_after(m.15, StreamView { data: s.data, pos: p14 }, endian, ()) {
                                                                                                                                    Err(e) => Err(e),
                                                                                                                                    Ok((m15, p15)) => {
                                                                                                                                        match T16::spec_after(m.16, StreamView { data: s.data, pos: p15 }, endian, ()) {
                                                                                                                                            Err(e) => Err(e),
                                                                                                                                            Ok((m16, p16)) => {
                                                                                                                                                match T17::spec_after(m.17, StreamView { data: s.data, pos: p16 }, endian, ()) {
                                                                                                                                                    Err(e) => Err(e),
                                                                                                                                                    Ok((m17, p17)) => {
                                                                                                                                                        match T18::spec_after(m.18, StreamView { data: s.data, pos: p17 }, endian, ()) {
                                                                                                                                                            Err(e) => Err(e),
                                                                                                                                                            Ok((m18, p18)) => Ok(((m0, m1, m2, m3, m4, m5, m6, m7, m8, m9, m10, m11, m12, m13, m14, m15, m16, m17, m18), p18)),
                                                                                                                                                        }
                                                                                                                                                    },
                                                                                                                                                }
                                                                                                                                            },
                                                                                                                                        }
                                                                                                                                    },
                                                                                                                                }
                                                                                                                            },
                                                                                                                        }
                                                                                                                    },
                                                                                                                }
                                                                                                            },
                                                                                                        }
                                                                                                    },
                                                                                                }
                                                                                            },
                                                                                        }
                                                                                    },
                                                                                }
                                                                            },
                                                                        }
                                                                    },
                                                                }
                                                            },
                                                        }
                                                    },
                                                }
                                            },
                                        }
                                    },
                                }
                            },
                        }
                    },
                }
            },
        }
    }

    open spec fn restores_on_failure() -> bool {
        false
    }

    fn read_options(reader: &mut Cursor, options: &ReadOptions, args: ()) -> (r: BinResult<
        (T0, T1, T2, T3, T4, T5, T6, T7, T8, T9, T10, T11, T12, T13, T14, T15, T16, T17, T18),
    >) {
        proof {
            assert(!Self::restores_on_failure());
        }
        let v0 = match T0::read_options(reader, options, ()) {
            Ok(v) => v,
            Err(e) => {
                return Err(e);
            },
        };
        let v1 = match T1::read_options(reader, options, ()) {
            Ok(v) => v,
            Err(e) => {
                return Err(e);
            },
        };
        let v2 = match T2::read_options(reader, options, ()) {
            Ok(v) => v,
            Err(e) => {
                return Err(e);
            },
        };
        let v3 = match T3::read_options(reader, options, ()) {
            Ok(v) => v,
            Err(e) => {
                return Err(e);
            },
        };
        let v4 = match T4::read_options(reader, options, ()) {
            Ok(v) => v,
            Err(e) => {
                return Err(e);
            },
        };
        let v5 = match T5::read_options(reader, options, ()) {
            Ok(v) => v,
            Err(e) => {
                return Err(e);
            },
        };
        let v6 = match T6::read_options(reader, options, ()) {
            Ok(v) => v,
            Err(e) => {
                return Err(e);
            },
        };
        let v7 = match T7::read_options(reader, options, ()) {
            Ok(v) => v,
            Err(e) => {
                return Err(e);
            },
        };
        let v8 = match T8::read_options(reader, options, ()) {
            Ok(v) => v,
            Err(e) => {
                return Err(e);
            },
        };
        let v9 = match T9::read_options(reader, options, ()) {
            Ok(v) => v,
            Err(e) => {
                return Err(e);
            },
        };
        let v10 = match T10::read_options(reader, options, ()) {
            Ok(v) => v,
            Err(e) => {
                return Err(e);
            },
        };
        let v11 = match T11::read_options(reader, options, ()) {
            Ok(v) => v,
            Err(e) => {
                return Err(e);
            },
        };
        let v12 = match T12::read_options(reader, options, ()) {
            Ok(v) => v,
            Err(e) => {
                return Err(e);
            },
        };
        let v13 = match T13::read_options(reader, options, ()) {
            Ok(v) => v,
            Err(e) => {
                return Err(e);
            },
        };
        let v14 = match T14::read_options(reader, options, ()) {
            Ok(v) => v,
            Err(e) => {
                return Err(e);
            },
        };
        let v15 = match T15::read_options(reader, options, ()) {
            Ok(v) => v,
            Err(e) => {
                return Err(e);
            },
        };
        let v16 = match T16::read_options(reader, options, ()) {
            Ok(v) => v,
            Err(e) => {
                return Err(e);
            },
        };
        let v17 = match T17::read_options(reader, options, ()) {
            Ok(v) => v,
            Err(e) => {
                return Err(e);
            },
        };
        let v18 = match T18::read_options(reader, options, ()) {
            Ok(v) => v,
            Err(e) => {
                return Err(e);
            },
        };
        Ok((v0, v1, v2, v3, v4, v5, v6, v7, v8, v9, v10, v11, v12, v13, v14, v15, v16, v17, v18))
    }

    fn after_parse(self, reader: &mut Cursor, options: &ReadOptions, args: ()) -> (r: BinResult<
        (T0, T1, T2, T3, T4, T5, T6, T7, T8, T9, T10, T11, T12, T13, T14, T15, T16, T17, T18),
    >) {
        let (x0, x1, x2, x3, x4, x5, x6, x7, x8, x9, x10, x11, x12, x13, x14, x15, x16, x17, x18) = self;
        let v0 = match x0.after_parse(reader, options, ()) {
            Ok(v) => v,
            Err(e) => {
                return Err(e);
            },
        };
        let v1 = match x1.after_parse(reader, options, ()) {
            Ok(v) => v,
            Err(e) => {
                return Err(e);
            },
        };
        let v2 = match x2.after_parse(reader, options, ()) {
            Ok(v) => v,
            Err(e) => {
                return Err(e);
            },
        };
        let v3 = match x3.after_parse(reader, options, ()) {
            Ok(v) => v,
            Err(e) => {
                return Err(e);
            },
        };
        let v4 = match x4.after_parse(reader, options, ()) {
            Ok(v) => v,
            Err(e) => {
                return Err(e);
            },
        };
        let v5 = match x5.after_parse(reader, options, ()) {
            Ok(v) => v,
            Err(e) => {
                return Err(e);
            },
        };
        let v6 = match x6.after_parse(reader, options, ()) {
            Ok(v) => v,
            Err(e) => {
                return Err(e);
            },
        };
        let v7 = match x7.after_parse(reader, options, ()) {
            Ok(v) => v,
            Err(e) => {
                return Err(e);
            },
        };
        let v8 = match x8.after_parse(reader, options, ()) {
            Ok(v) => v,
            Err(e) => {
                return Err(e);
            },
        };
        let v9 = match x9.after_parse(reader, options, ()) {
            Ok(v) => v,
            Err(e) => {
                return Err(e);
            },
        };
        let v10 = match x10.after_parse(reader, options, ()) {
            Ok(v) => v,
            Err(e) => {
                return Err(e);
            },
        };
        let v11 = match x11.after_parse(reader, options, ()) {
            Ok(v) => v,
            Err(e) => {
                return Err(e);
            },
        };
        let v12 = match x12.after_parse(reader, options, ()) {
            Ok(v) => v,
            Err(e) => {
                return Err(e);
            },
        };
        let v13 = match x13.after_parse(reader, options, ()) {
            Ok(v) => v,
            Err(e) => {
                return Err(e);
            },
        };
        let v14 = match x14.after_parse(reader, options, ()) {
            Ok(v) => v,
            Err(e) => {
                return Err(e);
            },
        };
        let v15 = match x15.after_parse(reader, options, ()) {
            Ok(v) => v,
            Err(e) => {
                return Err(e);
            },
        };
        let v16 = match x16.after_parse(reader, options, ()) {
            Ok(v) => v,
            Err(e) => {
                return Err(e);
            },
        };
        let v17 = match x17.after_parse(reader, options, ()) {
            Ok(v) => v,
            Err(e) => {
                return Err(e);
            },
        };
        let v18 = match x18.after_parse(reader, options, ()) {
            Ok(v) => v,
            Err(e) => {
                return Err(e);
            },
        };
        Ok((v0, v1, v2, v3, v4, v5, v6, v7, v8, v9, v10, v11, v12, v13, v14, v15, v16, v17, v18))
    }
}

impl<T0: BinRead<Args = ()>, T1: BinRead<Args = ()>, T2: BinRead<Args = ()>, T3: BinRead<Args = ()>, T4: BinRead<Args = ()>, T5: BinRead<Args = ()>, T6: BinRead<Args = ()>, T7: BinRead<Args = ()>, T8: BinRead<Args = ()>, T9: BinRead<Args = ()>, T10: BinRead<Args = ()>, T11: BinRead<Args = ()>, T12: BinRead<Args = ()>, T13: BinRead<Args = ()>, T14: BinRead<Args = ()>, T15: BinRead<Args = ()>, T16: BinRead<Args = ()>, T17: BinRead<Args = ()>, T18: BinRead<Args = ()>, T19: BinRead<Args = ()>> BinRead for (T0, T1, T2, T3, T4, T5, T6, T7, T8, T9, T10, T11, T12, T13, T14, T15, T16, T17, T18, T19) {
    type Args = ();

    type Model = (T0::Model, T1::Model, T2::Model, T3::Model, T4::Model, T5::Model, T6::Model, T7::Model, T8::Model, T9::Model, T10::Model, T11::Model, T12::Model, T13::Model, T14::Model, T15::Model, T16::Model, T17::Model, T18::Model, T19::Model);

    open spec fn model(self) -> (T0::Model, T1::Model, T2::Model, T3::Model, T4::Model, T5::Model, T6::Model, T7::Model, T8::Model, T9::Model, T10::Model, T11::Model, T12::Model, T13::Model, T14::Model, T15::Model, T16::Model, T17::Model, T18::Model, T19::Model) {
        (self.0.model(), self.1.model(), self.2.model(), self.3.model(), self.4.model(), self.5.model(), self.6.model(), self.7.model(), self.8.model(), self.9.model(), self.10.model(), self.11.model(), self.12.model(), self.13.model(), self.14.model(), self.15.model(), self.16.model(), self.17.model(), self.18.model(), self.19.model())
    }

    open spec fn spec_read(s: StreamView, endian: Endian, args: ()) -> Result<
        ((T0::Model, T1::Model, T2::Model, T3::Model, T4::Model, T5::Model, T6::Model, T7::Model, T8::Model, T9::Model, T10::Model, T11::Model, T12::Model, T13::Model, T14::Model, T15::Model, T16::Model, T17::Model, T18::Model, T19::Model), int),
        Error,
    > {
        match T0::spec_read(s, endian, ()) {
            Err(e) => Err(e),
            Ok((m0, p0)) => {
                match T1::spec_read(StreamView { data: s.data, pos: p0 }, endian, ()) {
                    Err(e) => Err(e),
                    Ok((m1, p1)) => {
                        match T2::spec_read(StreamView { data: s.data, pos: p1 }, endian, ()) {
                            Err(e) => Err(e),
                            Ok((m2, p2)) => {
                                match T3::spec_read(StreamView { data: s.data, pos: p2 }, endian, ()) {
                                    Err(e) => Err(e),
                                    Ok((m3, p3)) => {
                                        match T4::spec_read(StreamView { data: s.data, pos: p3 }, endian, ()) {
                                            Err(e) => Err(e),
                                            Ok((m4, p4)) => {
                                                match T5::spec_read(StreamView { data: s.data, pos: p4 }, endian, ()) {
                                                    Err(e) => Err(e),
                                                    Ok((m5, p5)) => {
                                                        match T6::spec_read(StreamView { data: s.data, pos: p5 }, endian, ()) {
                                                            Err(e) => Err(e),
                                                            Ok((m6, p6)) => {
                                                                match T7::spec_read(StreamView { data: s.data, pos: p6 }, endian, ()) {
                                                                    Err(e) => Err(e),
                                                                    Ok((m7, p7)) => {
                                                                        match T8::spec_read(StreamView { data: s.data, pos: p7 }, endian, ()) {
                                                                            Err(e) => Err(e),
                                                                            Ok((m8, p8)) => {
                                                                                match T9::spec_read(StreamView { data: s.data, pos: p8 }, endian, ()) {
                                                                                    Err(e) => Err(e),
                                                                                    Ok((m9, p9)) => {
                                                                                        match T10::spec_read(StreamView { data: s.data, pos: p9 }, endian, ()) {
                                                                                            Err(e) => Err(e),
                                                                                            Ok((m10, p10)) => {
                                                                                                match T11::spec_read(StreamView { data: s.data, pos: p10 }, endian, ()) {
                                                                                                    Err(e) => Err(e),
                                                                                                    Ok((m11, p11)) => {
                                                                                                        match T12::spec_read(StreamView { data: s.data, pos: p11 }, endian, ()) {
                                                                                                            Err(e) => Err(e),
                                                                                                            Ok((m12, p12)) => {
                                                                                                                match T13::spec_read(StreamView { data: s.data, pos: p12 }, endian, ()) {
                                                                                                                    Err(e) => Err(e),
                                                                                                                    Ok((m13, p13)) => {
                                                                                                                        match T14::spec_read(StreamView { data: s.data, pos: p13 }, endian, ()) {
                                                                                                                            Err(e) => Err(e),
                                                                                                                            Ok((m14, p14)) => {
                                                                                                                                match T15::spec_read(StreamView { data: s.data, pos: p14 }, endian, ()) {
                                                                                                                                    Err(e) => Err(e),
                                                                                                                                    Ok((m15, p15)) => {
                                                                                                                                        match T16::spec_read(StreamView { data: s.data, pos: p15 }, endian, ()) {
                                                                                                                                            Err(e) => Err(e),
                                                                                                                                            Ok((m16, p16)) => {
                                                                                                                                                match T17::spec_read(StreamView { data: s.data, pos: p16 }, endian, ()) {
                                                                                                                                                    Err(e) => Err(e),
                                                                                                                                                    Ok((m17, p17)) => {
                                                                                                                                                        match T18::spec_read(StreamView { data: s.data, pos: p17 }, endian, ()) {
                                                                                                                                                            Err(e) => Err(e),
                                                                                                                                                            Ok((m18, p18)) => {
                                                                                                                                                                match T19::spec_read(StreamView { data: s.data, pos: p18 }, endian, ()) {
                                                                                                                                                                    Err(e) => Err(e),
                                                                                                                                                                    Ok((m19, p19)) => Ok(((m0, m1, m2, m3, m4, m5, m6, m7, m8, m9, m10, m11, m12, m13, m14, m15, m16, m17, m18, m19), p19)),
                                                                                                                                                                }
                                                                                                                                                            },
                                                                                                                                                        }
                                                                                                                                                    },
                                                                                                                                                }
                                                                                                                                            },
                                                                                                                                        }
                                                                                                                                    },
                                                                                                                                }
                                                                                                                            },
                                                                                                                        }
                                                                                                                    },
                                                                                                                }
                                                                                                            },
                                                                                                        }
                                                                                                    },
                                                                                                }
                                                                                            },
                                                                                        }
                                                                                    },
                                                                                }
                                                                            },
                                                                        }
                                                                    },
                                                                }
                                                            },
                                                        }
                                                    },
                                                }
                                            },
                                        }
                                    },
                                }
                            },
                        }
                    },
                }
            },
        }
    }

    open spec fn spec_after(m: (T0::Model, T1::Model, T2::Model, T3::Model, T4::Model, T5::Model, T6::Model, T7::Model, T8::Model, T9::Model, T10::Model, T11::Model, T12::Model, T13::Model, T14::Model, T15::Model, T16::Model, T17::Model, T18::Model, T19::Model), s: StreamView, endian: Endian, args: ()) -> Result<
        ((T0::Model, T1::Model, T2::Model, T3::Model, T4::Model, T5::Model, T6::Model, T7::Model, T8::Model, T9::Model, T10::Model, T11::Model, T12::Model, T13::Model, T14::Model, T15::Model, T16::Model, T17::Model, T18::Model, T19::Model), int),
        Error,
    > {
        match T0::spec_after(m.0, s, endian, ()) {
            Err(e) => Err(e),
            Ok((m0, p0)) => {
                match T1::spec_after(m.1, StreamView { data: s.data, pos: p0 }, endian, ()) {
                    Err(e) => Err(e),
                    Ok((m1, p1)) => {
                        match T2::spec_after(m.2, StreamView { data: s.data, pos: p1 }, endian, ()) {
                            Err(e) => Err(e),
                            Ok((m2, p2)) => {
                                match T3::spec_after(m.3, StreamView { data: s.data, pos: p2 }, endian, ()) {
                                    Err(e) => Err(e),
                                    Ok((m3, p3)) => {
                                        match T4::spec_after(m.4, StreamView { data: s.data, pos: p3 }, endian, ()) {
                                            Err(e) => Err(e),
                                            Ok((m4, p4)) => {
                                                match T5::spec_after(m.5, StreamView { data: s.data, pos: p4 }, endian, ()) {
                                                    Err(e) => Err(e),
                                                    Ok((m5, p5)) => {
                                                        match T6::spec_after(m.6, StreamView { data: s.data, pos: p5 }, endian, ()) {
                                                            Err(e) => Err(e),
                                                            Ok((m6, p6)) => {
                                                                match T7::spec_after(m.7, StreamView { data: s.data, pos: p6 }, endian, ()) {
                                                                    Err(e) => Err(e),
                                                                    Ok((m7, p7)) => {
                                                                        match T8::spec_after(m.8, StreamView { data: s.data, pos: p7 }, endian, ()) {
                                                                            Err(e) => Err(e),
                                                                            Ok((m8, p8)) => {
                                                                                match T9::spec_after(m.9, StreamView { data: s.data, pos: p8 }, endian, ()) {
                                                                                    Err(e) => Err(e),
                                                                                    Ok((m9, p9)) => {
                                                                                        match T10::spec_after(m.10, StreamView { data: s.data, pos: p9 }, endian, ()) {
                                                                                            Err(e) => Err(e),
                                                                                            Ok((m10, p10)) => {
                                                                                                match T11::spec_after(m.11, StreamView { data: s.data, pos: p10 }, endian, ()) {
                                                                                                    Err(e) => Err(e),
                                                                                                    Ok((m11, p11)) => {
                                                                                                        match T12::spec_after(m.12, StreamView { data: s.data, pos: p11 }, endian, ()) {
                                                                                                            Err(e) => Err(e),
                                                                                                            Ok((m12, p12)) => {
                                                                                                                match T13::spec_after(m.13, StreamView { data: s.data, pos: p12 }, endian, ()) {
                                                                                                                    Err(e) => Err(e),
                                                                                                                    Ok((m13, p13)) => {
                                                                                                                        match T14::spec_after(m.14, StreamView { data: s.data, pos: p13 }, endian, ()) {
                                                                                                                            Err(e) => Err(e),
                                                                                                                            Ok((m14, p14)) => {
                                                                                                                                match T15::spec_after(m.15, StreamView { data: s.data, pos: p14 }, endian, ()) {
                                                                                                                                    Err(e) => Err(e),
                                                                                                                                    Ok((m15, p15)) => {
                                                                                                                                        match T16::spec_after(m.16, StreamView { data: s.data, pos: p15 }, endian, ()) {
                                                                                                                                            Err(e) => Err(e),
                                                                                                                                            Ok((m16, p16)) => {
                                                                                                                                                match T17::spec_after(m.17, StreamView { data: s.data, pos: p16 }, endian, ()) {
                                                                                                                                                    Err(e) => Err(e),
                                                                                                                                                    Ok((m17, p17)) => {
                                                                                                                                                        match T18::spec_after(m.18, StreamView { data: s.data, pos: p17 }, endian, ()) {
                                                                                                                                                            Err(e) => Err(e),
                                                                                                                                                            Ok((m18, p18)) => {
                                                                                                                                                                match T19::spec_after(m.19, StreamView { data: s.data, pos: p18 }, endian, ()) {
                                                                                                                                                                    Err(e) => Err(e),
                                                                                                                                                                    Ok((m19, p19)) => Ok(((m0, m1, m2, m3, m4, m5, m6, m7, m8, m9, m10, m11, m12, m13, m14, m15, m16, m17, m18, m19), p19)),
                                                                                                                                                                }
                                                                                                                                                            },
                                                                                                                                                        }
                                                                                                                                                    },
                                                                                                                                                }
                                                                                                                                            },
                                                                                                                                        }
                                                                                                                                    },
                                                                                                                                }
                                                                                                                            },
                                                                                                                        }
                                                                                                                    },
                                                                                                                }
                                                                                                            },
                                                                                                        }
                                                                                                    },
                                                                                                }
                                                                                            },
                                                                                        }
                                                                                    },
                                                                                }
                                                                            },
                                                                        }
                                                                    },
                                                                }
                                                            },
                                                        }
                                                    },
                                                }
                                            },
                                        }
                                    },
                                }
                            },
                        }
                    },
                }
            },
        }
    }

    open spec fn restores_on_failure() -> bool {
        false
    }

    fn read_options(reader: &mut Cursor, options: &ReadOptions, args: ()) -> (r: BinResult<
        (T0, T1, T2, T3, T4, T5, T6, T7, T8, T9, T10, T11, T12, T13, T14, T15, T16, T17, T18, T19),
    >) {
        proof {
            assert(!Self::restores_on_failure());
        }
        let v0 = match T0::read_options(reader, options, ()) {
            Ok(v) => v,
            Err(e) => {
                return Err(e);
            },
        };
        let v1 = match T1::read_options(reader, options, ()) {
            Ok(v) => v,
            Err(e) => {
                return Err(e);
            },
        };
        let v2 = match T2::read_options(reader, options, ()) {
            Ok(v) => v,
            Err(e) => {
                return Err(e);
            },
        };
        let v3 = match T3::read_options(reader, options, ()) {
            Ok(v) => v,
            Err(e) => {
                return Err(e);
            },
        };
        let v4 = match T4::read_options(reader, options, ()) {
            Ok(v) => v,
            Err(e) => {
                return Err(e);
            },
        };
        let v5 = match T5::read_options(reader, options, ()) {
            Ok(v) => v,
            Err(e) => {
                return Err(e);
            },
        };
        let v6 = match T6::read_options(reader, options, ()) {
            Ok(v) => v,
            Err(e) => {
                return Err(e);
            },
        };
        let v7 = match T7::read_options(reader, options, ()) {
            Ok(v) => v,
            Err(e) => {
                return Err(e);
            },
        };
        let v8 = match T8::read_options(reader, options, ()) {
            Ok(v) => v,
            Err(e) => {
                return Err(e);
            },
        };
        let v9 = match T9::read_options(reader, options, ()) {
            Ok(v) => v,
            Err(e) => {
                return Err(e);
            },
        };
        let v10 = match T10::read_options(reader, options, ()) {
            Ok(v) => v,
            Err(e) => {
                return Err(e);
            },
        };
        let v11 = match T11::read_options(reader, options, ()) {
            Ok(v) => v,
            Err(e) => {
                return Err(e);
            },
        };
        let v12 = match T12::read_options(reader, options, ()) {
            Ok(v) => v,
            Err(e) => {
                return Err(e);
            },
        };
        let v13 = match T13::read_options(reader, options, ()) {
            Ok(v) => v,
            Err(e) => {
                return Err(e);
            },
        };
        let v14 = match T14::read_options(reader, options, ()) {
            Ok(v) => v,
            Err(e) => {
                return Err(e);
            },
        };
        let v15 = match T15::read_options(reader, options, ()) {
            Ok(v) => v,
            Err(e) => {
                return Err(e);
            },
        };
        let v16 = match T16::read_options(reader, options, ()) {
            Ok(v) => v,
            Err(e) => {
                return Err(e);
            },
        };
        let v17 = match T17::read_options(reader, options, ()) {
            Ok(v) => v,
            Err(e) => {
                return Err(e);
            },
        };
        let v18 = match T18::read_options(reader, options, ()) {
            Ok(v) => v,
            Err(e) => {
                return Err(e);
            },
        };
        let v19 = match T19::read_options(reader, options, ()) {
            Ok(v) => v,
            Err(e) => {
                return Err(e);
            },
        };
        Ok((v0, v1, v2, v3, v4, v5, v6, v7, v8, v9, v10, v11, v12, v13, v14, v15, v16, v17, v18, v19))
    }

    fn after_parse(self, reader: &mut Cursor, options: &ReadOptions, args: ()) -> (r: BinResult<
        (T0, T1, T2, T3, T4, T5, T6, T7, T8, T9, T10, T11, T12, T13, T14, T15, T16, T17, T18, T19),
    >) {
        let (x0, x1, x2, x3, x4, x5, x6, x7, x8, x9, x10, x11, x12, x13, x14, x15, x16, x17, x18, x19) = self;
        let v0 = match x0.after_parse(reader, options, ()) {
            Ok(v) => v,
            Err(e) => {
                return Err(e);
            },
        };
        let v1 = match x1.after_parse(reader, options, ()) {
            Ok(v) => v,
            Err(e) => {
                return Err(e);
            },
        };
        let v2 = match x2.after_parse(reader, options, ()) {
            Ok(v) => v,
            Err(e) => {
                return Err(e);
            },
        };
        let v3 = match x3.after_parse(reader, options, ()) {
            Ok(v) => v,
            Err(e) => {
                return Err(e);
            },
        };
        let v4 = match x4.after_parse(reader, options, ()) {
            Ok(v) => v,
            Err(e) => {
                return Err(e);
            },
        };
        let v5 = match x5.after_parse(reader, options, ()) {
            Ok(v) => v,
            Err(e) => {
                return Err(e);
            },
        };
        let v6 = match x6.after_parse(reader, options, ()) {
            Ok(v) => v,
            Err(e) => {
                return Err(e);
            },
        };
        let v7 = match x7.after_parse(reader, options, ()) {
            Ok(v) => v,
            Err(e) => {
                return Err(e);
            },
        };
        let v8 = match x8.after_parse(reader, options, ()) {
            Ok(v) => v,
            Err(e) => {
                return Err(e);
            },
        };
        let v9 = match x9.after_parse(reader, options, ()) {
            Ok(v) => v,
            Err(e) => {
                return Err(e);
            },
        };
        let v10 = match x10.after_parse(reader, options, ()) {
            Ok(v) => v,
            Err(e) => {
                return Err(e);
            },
        };
        let v11 = match x11.after_parse(reader, options, ()) {
            Ok(v) => v,
            Err(e) => {
                return Err(e);
            },
        };
        let v12 = match x12.after_parse(reader, options, ()) {
            Ok(v) => v,
            Err(e) => {
                return Err(e);
            },
        };
        let v13 = match x13.after_parse(reader, options, ()) {
            Ok(v) => v,
            Err(e) => {
                return Err(e);
            },
        };
        let v14 = match x14.after_parse(reader, options, ()) {
            Ok(v) => v,
            Err(e) => {
                return Err(e);
            },
        };
        let v15 = match x15.after_parse(reader, options, ()) {
            Ok(v) => v,
            Err(e) => {
                return Err(e);
            },
        };
        let v16 = match x16.after_parse(reader, options, ()) {
            Ok(v) => v,
            Err(e) => {
                return Err(e);
            },
        };
        let v17 = match x17.after_parse(reader, options, ()) {
            Ok(v) => v,
            Err(e) => {
                return Err(e);
            },
        };
        let v18 = match x18.after_parse(reader, options, ()) {
            Ok(v) => v,
            Err(e) => {
                return Err(e);
            },
        };
        let v19 = match x19.after_parse(reader, options, ()) {
            Ok(v) => v,
            Err(e) => {
                return Err(e);
            },
        };
        Ok((v0, v1, v2, v3, v4, v5, v6, v7, v8, v9, v10, v11, v12, v13, v14, v15, v16, v17, v18, v19))
    }
}

impl<T0: BinRead<Args = ()>, T1: BinRead<Args = ()>, T2: BinRead<Args = ()>, T3: BinRead<Args = ()>, T4: BinRead<Args = ()>, T5: BinRead<Args = ()>, T6: BinRead<Args = ()>, T7: BinRead<Args = ()>, T8: BinRead<Args = ()>, T9: BinRead<Args = ()>, T10: BinRead<Args = ()>, T11: BinRead<Args = ()>, T12: BinRead<Args = ()>, T13: BinRead<Args = ()>, T14: BinRead<Args = ()>, T15: BinRead<Args = ()>, T16: BinRead<Args = ()>, T17: BinRead<Args = ()>, T18: BinRead<Args = ()>, T19: BinRead<Args = ()>, T20: BinRead<Args = ()>> BinRead for (T0, T1, T2, T3, T4, T5, T6, T7, T8, T9, T10, T11, T12, T13, T14, T15, T16, T17, T18, T19, T20) {
    type Args = ();

    type Model = (T0::Model, T1::Model, T2::Model, T3::Model, T4::Model, T5::Model, T6::Model, T7::Model, T8::Model, T9::Model, T10::Model, T11::Model, T12::Model, T13::Model, T14::Model, T15::Model, T16::Model, T17::Model, T18::Model, T19::Model, T20::Model);

    open spec fn model(self) -> (T0::Model, T1::Model, T2::Model, T3::Model, T4::Model, T5::Model, T6::Model, T7::Model, T8::Model, T9::Model, T10::Model, T11::Model, T12::Model, T13::Model, T14::Model, T15::Model, T16::Model, T17::Model, T18::Model, T19::Model, T20::Model) {
        (self.0.model(), self.1.model(), self.2.model(), self.3.model(), self.4.model(), self.5.model(), self.6.model(), self.7.model(), self.8.model(), self.9.model(), self.10.model(), self.11.model(), self.12.model(), self.13.model(), self.14.model(), self.15.model(), self.16.model(), self.17.model(), self.18.model(), self.19.model(), self.20.model())
    }

    open spec fn spec_read(s: StreamView, endian: Endian, args: ()) -> Result<
        ((T0::Model, T1::Model, T2::Model, T3::Model, T4::Model, T5::Model, T6::Model, T7::Model, T8::Model, T9::Model, T10::Model, T11::Model, T12::Model, T13::Model, T14::Model, T15::Model, T16::Model, T17::Model, T18::Model, T19::Model, T20::Model), int),
        Error,
    > {
        match T0::spec_read(s, endian, ()) {
            Err(e) => Err(e),
            Ok((m0, p0)) => {
                match T1::spec_read(StreamView { data: s.data, pos: p0 }, endian, ()) {
                    Err(e) => Err(e),
                    Ok((m1, p1)) => {
                        match T2::spec_read(StreamView { data: s.data, pos: p1 }, endian, ()) {
                            Err(e) => Err(e),
                            Ok((m2, p2)) => {
                                match T3::spec_read(StreamView { data: s.data, pos: p2 }, endian, ()) {
                                    Err(e) => Err(e),
                                    Ok((m3, p3)) => {
                                        match T4::spec_read(StreamView { data: s.data, pos: p3 }, endian, ()) {
                                            Err(e) => Err(e),
                                            Ok((m4, p4)) => {
                                                match T5::spec_read(StreamView { data: s.data, pos: p4 }, endian, ()) {
                                                    Err(e) => Err(e),
                                                    Ok((m5, p5)) => {
                                                        match T6::spec_read(StreamView { data: s.data, pos: p5 }, endian, ()) {
                                                            Err(e) => Err(e),
                                                            Ok((m6, p6)) => {
                                                                match T7::spec_read(StreamView { data: s.data, pos: p6 }, endian, ()) {
                                                                    Err(e) => Err(e),
                                                                    Ok((m7, p7)) => {
                                                                        match T8::spec_read(StreamView { data: s.data, pos: p7 }, endian, ()) {
                                                                            Err(e) => Err(e),
                                                                            Ok((m8, p8)) => {
                                                                                match T9::spec_read(StreamView { data: s.data, pos: p8 }, endian, ()) {
                                                                                    Err(e) => Err(e),
                                                                                    Ok((m9, p9)) => {
                                                                                        match T10::spec_read(StreamView { data: s.data, pos: p9 }, endian, ()) {
                                                                                            Err(e) => Err(e),
                                                                                            Ok((m10, p10)) => {
                                                                                                match T11::spec_read(StreamView { data: s.data, pos: p10 }, endian, ()) {
                                                                                                    Err(e) => Err(e),
                                                                                                    Ok((m11, p11)) => {
                                                                                                        match T12::spec_read(StreamView { data: s.data, pos: p11 }, endian, ()) {
                                                                                                            Err(e) => Err(e),
                                                                                                            Ok((m12, p12)) => {
                                                                                                                match T13::spec_read(StreamView { data: s.data, pos: p12 }, endian, ()) {
                                                                                                                    Err(e) => Err(e),
                                                                                                                    Ok((m13, p13)) => {
                                                                                                                        match T14::spec_read(StreamView { data: s.data, pos: p13 }, endian, ()) {
                                                                                                                            Err(e) => Err(e),
                                                                                                                            Ok((m14, p14)) => {
                                                                                                                                match T15::spec_read(StreamView { data: s.data, pos: p14 }, endian, ()) {
                                                                                                                                    Err(e) => Err(e),
                                                                                                                                    Ok((m15, p15)) => {
                                                                                                                                        match T16::spec_read(StreamView { data: s.data, pos: p15 }, endian, ()) {
                                                                                                                                            Err(e) => Err(e),
                                                                                                                                            Ok((m16, p16)) => {
                                                                                                                                                match T17::spec_read(StreamView { data: s.data, pos: p16 }, endian, ()) {
                                                                                                                                                    Err(e) => Err(e),
                                                                                                                                                    Ok((m17, p17)) => {
                                                                                                                                                        match T18::spec_read(StreamView { data: s.data, pos: p17 }, endian, ()) {
                                                                                                                                                            Err(e) => Err(e),
                                                                                                                                                            Ok((m18, p18)) => {
                                                                                                                                                                match T19::spec_read(StreamView { data: s.data, pos: p18 }, endian, ()) {
                                                                                                                                                                    Err(e) => Err(e),
                                                                                                                                                                    Ok((m19, p19)) => {
                                                                                                                                                                        match T20::spec_read(StreamView { data: s.data, pos: p19 }, endian, ()) {
                                                                                                                                                                            Err(e) => Err(e),
                                                                                                                                                                            Ok((m20, p20)) => Ok(((m0, m1, m2, m3, m4, m5, m6, m7, m8, m9, m10, m11, m12, m13, m14, m15, m16, m17, m18, m19, m20), p20)),
                                                                                                                                                                        }
                                                                                                                                                                    },
                                                                                                                                                                }
                                                                                                                                                            },
                                                                                                                                                        }
                                                                                                                                                    },
                                                                                                                                                }
                                                                                                                                            },
                                                                                                                                        }
                                                                                                                                    },
                                                                                                                                }
                                                                                                                            },
                                                                                                                        }
                                                                                                                    },
                                                                                                                }
                                                                                                            },
                                                                                                        }
                                                                                                    },
                                                                                                }
                                                                                            },
                                                                                        }
                                                                                    },
                                                                                }
                                                                            },
                                                                        }
                                                                    },
                                                                }
                                                            },
                                                        }
                                                    },
                                                }
                                            },
                                        }
                                    },
                                }
                            },
                        }
                    },
                }
            },
        }
    }

    open spec fn spec_after(m: (T0::Model, T1::Model, T2::Model, T3::Model, T4::Model, T5::Model, T6::Model, T7::Model, T8::Model, T9::Model, T10::Model, T11::Model, T12::Model, T13::Model, T14::Model, T15::Model, T16::Model, T17::Model, T18::Model, T19::Model, T20::Model), s: StreamView, endian: Endian, args: ()) -> Result<
        ((T0::Model, T1::Model, T2::Model, T3::Model, T4::Model, T5::Model, T6::Model, T7::Model, T8::Model, T9::Model, T10::Model, T11::Model, T12::Model, T13::Model, T14::Model, T15::Model, T16::Model, T17::Model, T18::Model, T19::Model, T20::Model), int),
        Error,
    > {
        match T0::spec_after(m.0, s, endian, ()) {
            Err(e) => Err(e),
            Ok((m0, p0)) => {
                match T1::spec_after(m.1, StreamView { data: s.data, pos: p0 }, endian, ()) {
                    Err(e) => Err(e),
                    Ok((m1, p1)) => {
                        match T2::spec_after(m.2, StreamView { data: s.data, pos: p1 }, endian, ()) {
                            Err(e) => Err(e),
                            Ok((m2, p2)) => {
                                match T3::spec_after(m.3, StreamView { data: s.data, pos: p2 }, endian, ()) {
                                    Err(e) => Err(e),
                                    Ok((m3, p3)) => {
                                        match T4::spec_after(m.4, StreamView { data: s.data, pos: p3 }, endian, ()) {
                                            Err(e) => Err(e),
                                            Ok((m4, p4)) => {
                                                match T5::spec_after(m.5, StreamView { data: s.data, pos: p4 }, endian, ()) {
                                                    Err(e) => Err(e),
                                                    Ok((m5, p5)) => {
                                                        match T6::spec_after(m.6, StreamView { data: s.data, pos: p5 }, endian, ()) {
                                                            Err(e) => Err(e),
                                                            Ok((m6, p6)) => {
                                                                match T7::spec_after(m.7, StreamView { data: s.data, pos: p6 }, endian, ()) {
                                                                    Err(e) => Err(e),
                                                                    Ok((m7, p7)) => {
                                                                        match T8::spec_after(m.8, StreamView { data: s.data, pos: p7 }, endian, ()) {
                                                                            Err(e) => Err(e),
                                                                            Ok((m8, p8)) => {
                                                                                match T9::spec_after(m.9, StreamView { data: s.data, pos: p8 }, endian, ()) {
                                                                                    Err(e) => Err(e),
                                                                                    Ok((m9, p9)) => {
                                                                                        match T10::spec_after(m.10, StreamView { data: s.data, pos: p9 }, endian, ()) {
                                                                                            Err(e) => Err(e),
                                                                                            Ok((m10, p10)) => {
                                                                                                match T11::spec_after(m.11, StreamView { data: s.data, pos: p10 }, endian, ()) {
                                                                                                    Err(e) => Err(e),
                                                                                                    Ok((m11, p11)) => {
                                                                                                        match T12::spec_after(m.12, StreamView { data: s.data, pos: p11 }, endian, ()) {
                                                                                                            Err(e) => Err(e),
                                                                                                            Ok((m12, p12)) => {
                                                                                                                match T13::spec_after(m.13, StreamView { data: s.data, pos: p12 }, endian, ()) {
                                                                                                                    Err(e) => Err(e),
                                                                                                                    Ok((m13, p13)) => {
                                                                                                                        match T14::spec_after(m.14, StreamView { data: s.data, pos: p13 }, endian, ()) {
                                                                                                                            Err(e) => Err(e),
                                                                                                                            Ok((m14, p14)) => {
                                                                                                                                match T15::spec_after(m.15, StreamView { data: s.data, pos: p14 }, endian, ()) {
                                                                                                                                    Err(e) => Err(e),
                                                                                                                                    Ok((m15, p15)) => {
                                                                                                                                        match T16::spec_after(m.16, StreamView { data: s.data, pos: p15 }, endian, ()) {
                                                                                                                                            Err(e) => Err(e),
                                                                                                                                            Ok((m16, p16)) => {
                                                                                                                                                match T17::spec_after(m.17, StreamView { data: s.data, pos: p16 }, endian, ()) {
                                                                                                                                                    Err(e) => Err(e),
                                                                                                                                                    Ok((m17, p17)) => {
                                                                                                                                                        match T18::spec_after(m.18, StreamView { data: s.data, pos: p17 }, endian, ()) {
                                                                                                                                                            Err(e) => Err(e),
                                                                                                                                                            Ok((m18, p18)) => {
                                                                                                                                                                match T19::spec_after(m.19, StreamView { data: s.data, pos: p18 }, endian, ()) {
                                                                                                                                                                    Err(e) => Err(e),
                                                                                                                                                                    Ok((m19, p19)) => {
                                                                                                                                                                        match T20::spec_after(m.20, StreamView { data: s.data, pos: p19 }, endian, ()) {
                                                                                                                                                                            Err(e) => Err(e),
                                                                                                                                                                            Ok((m20, p20)) => Ok(((m0, m1, m2, m3, m4, m5, m6, m7, m8, m9, m10, m11, m12, m13, m14, m15, m16, m17, m18, m19, m20), p20)),
                                                                                                                                                                        }
                                                                                                                                                                    },
                                                                                                                                                                }
                                                                                                                                                            },
                                                                                                                                                        }
                                                                                                                                                    },
                                                                                                                                                }
                                                                                                                                            },
                                                                                                                                        }
                                                                                                                                    },
                                                                                                                                }
                                                                                                                            },
                                                                                                                        }
                                                                                                                    },
                                                                                                                }
                                                                                                            },
                                                                                                        }
                                                                                                    },
                                                                                                }
                                                                                            },
                                                                                        }
                                                                                    },
                                                                                }
                                                                            },
                                                                        }
                                                                    },
                                                                }
                                                            },
                                                        }
                                                    },
                                                }
                                            },
                                        }
                                    },
                                }
                            },
                        }
                    },
                }
            },
        }
    }

    open spec fn restores_on_failure() -> bool {
        false
    }

    fn read_options(reader: &mut Cursor, options: &ReadOptions, args: ()) -> (r: BinResult<
        (T0, T1, T2, T3, T4, T5, T6, T7, T8, T9, T10, T11, T12, T13, T14, T15, T16, T17, T18, T19, T20),
    >) {
        proof {
            assert(!Self::restores_on_failure());
        }
        let v0 = match T0::read_options(reader, options, ()) {
            Ok(v) => v,
            Err(e) => {
                return Err(e);
            },
        };
        let v1 = match T1::read_options(reader, options, ()) {
            Ok(v) => v,
            Err(e) => {
                return Err(e);
            },
        };
        let v2 = match T2::read_options(reader, options, ()) {
            Ok(v) => v,
            Err(e) => {
                return Err(e);
            },
        };
        let v3 = match T3::read_options(reader, options, ()) {
            Ok(v) => v,
            Err(e) => {
                return Err(e);
            },
        };
        let v4 = match T4::read_options(reader, options, ()) {
            Ok(v) => v,
            Err(e) => {
                return Err(e);
            },
        };
        let v5 = match T5::read_options(reader, options, ()) {
            Ok(v) => v,
            Err(e) => {
                return Err(e);
            },
        };
        let v6 = match T6::read_options(reader, options, ()) {
            Ok(v) => v,
            Err(e) => {
                return Err(e);
            },
        };
        let v7 = match T7::read_options(reader, options, ()) {
            Ok(v) => v,
            Err(e) => {
                return Err(e);
            },
        };
        let v8 = match T8::read_options(reader, options, ()) {
            Ok(v) => v,
            Err(e) => {
                return Err(e);
            },
        };
        let v9 = match T9::read_options(reader, options, ()) {
            Ok(v) => v,
            Err(e) => {
                return Err(e);
            },
        };
        let v10 = match T10::read_options(reader, options, ()) {
            Ok(v) => v,
            Err(e) => {
                return Err(e);
            },
        };
        let v11 = match T11::read_options(reader, options, ()) {
            Ok(v) => v,
            Err(e) => {
                return Err(e);
            },
        };
        let v12 = match T12::read_options(reader, options, ()) {
            Ok(v) => v,
            Err(e) => {
                return Err(e);
            },
        };
        let v13 = match T13::read_options(reader, options, ()) {
            Ok(v) => v,
            Err(e) => {
                return Err(e);
            },
        };
        let v14 = match T14::read_options(reader, options, ()) {
            Ok(v) => v,
            Err(e) => {
                return Err(e);
            },
        };
        let v15 = match T15::read_options(reader, options, ()) {
            Ok(v) => v,
            Err(e) => {
                return Err(e);
            },
        };
        let v16 = match T16::read_options(reader, options, ()) {
            Ok(v) => v,
            Err(e) => {
                return Err(e);
            },
        };
        let v17 = match T17::read_options(reader, options, ()) {
            Ok(v) => v,
            Err(e) => {
                return Err(e);
            },
        };
        let v18 = match T18::read_options(reader, options, ()) {
            Ok(v) => v,
            Err(e) => {
                return Err(e);
            },
        };
        let v19 = match T19::read_options(reader, options, ()) {
            Ok(v) => v,
            Err(e) => {
                return Err(e);
            },
        };
        let v20 = match T20::read_options(reader, options, ()) {
            Ok(v) => v,
            Err(e) => {
                return Err(e);
            },
        };
        Ok((v0, v1, v2, v3, v4, v5, v6, v7, v8, v9, v10, v11, v12, v13, v14, v15, v16, v17, v18, v19, v20))
    }

    fn after_parse(self, reader: &mut Cursor, options: &ReadOptions, args: ()) -> (r: BinResult<
        (T0, T1, T2, T3, T4, T5, T6, T7, T8, T9, T10, T11, T12, T13, T14, T15, T16, T17, T18, T19, T20),
    >) {
        let (x0, x1, x2, x3, x4, x5, x6, x7, x8, x9, x10, x11, x12, x13, x14, x15, x16, x17, x18, x19, x20) = self;
        let v0 = match x0.after_parse(reader, options, ()) {
            Ok(v) => v,
            Err(e) => {
                return Err(e);
            },
        };
        let v1 = match x1.after_parse(reader, options, ()) {
            Ok(v) => v,
            Err(e) => {
                return Err(e);
            },
        };
        let v2 = match x2.after_parse(reader, options, ()) {
            Ok(v) => v,
            Err(e) => {
                return Err(e);
            },
        };
        let v3 = match x3.after_parse(reader, options, ()) {
            Ok(v) => v,
            Err(e) => {
                return Err(e);
            },
        };
        let v4 = match x4.after_parse(reader, options, ()) {
            Ok(v) => v,
            Err(e) => {
                return Err(e);
            },
        };
        let v5 = match x5.after_parse(reader, options, ()) {
            Ok(v) => v,
            Err(e) => {
                return Err(e);
            },
        };
        let v6 = match x6.after_parse(reader, options, ()) {
            Ok(v) => v,
            Err(e) => {
                return Err(e);
            },
        };
        let v7 = match x7.after_parse(reader, options, ()) {
            Ok(v) => v,
            Err(e) => {
                return Err(e);
            },
        };
        let v8 = match x8.after_parse(reader, options, ()) {
            Ok(v) => v,
            Err(e) => {
                return Err(e);
            },
        };
        let v9 = match x9.after_parse(reader, options, ()) {
            Ok(v) => v,
            Err(e) => {
                return Err(e);
            },
        };
        let v10 = match x10.after_parse(reader, options, ()) {
            Ok(v) => v,
            Err(e) => {
                return Err(e);
            },
        };
        let v11 = match x11.after_parse(reader, options, ()) {
            Ok(v) => v,
            Err(e) => {
                return Err(e);
            },
        };
        let v12 = match x12.after_parse(reader, options, ()) {
            Ok(v) => v,
            Err(e) => {
                return Err(e);
            },
        };
        let v13 = match x13.after_parse(reader, options, ()) {
            Ok(v) => v,
            Err(e) => {
                return Err(e);
            },
        };
        let v14 = match x14.after_parse(reader, options, ()) {
            Ok(v) => v,
            Err(e) => {
                return Err(e);
            },
        };
        let v15 = match x15.after_parse(reader, options, ()) {
            Ok(v) => v,
            Err(e) => {
                return Err(e);
            },
        };
        let v16 = match x16.after_parse(reader, options, ()) {
            Ok(v) => v,
            Err(e) => {
                return Err(e);
            },
        };
        let v17 = match x17.after_parse(reader, options, ()) {
            Ok(v) => v,
            Err(e) => {
                return Err(e);
            },
        };
        let v18 = match x18.after_parse(reader, options, ()) {
            Ok(v) => v,
            Err(e) => {
                return Err(e);
            },
        };
        let v19 = match x19.after_parse(reader, options, ()) {
            Ok(v) => v,
            Err(e) => {
                return Err(e);
            },
        };
        let v20 = match x20.after_parse(reader, options, ()) {
            Ok(v) => v,
            Err(e) => {
                return Err(e);
            },
        };
        Ok((v0, v1, v2, v3, v4, v5, v6, v7, v8, v9, v10, v11, v12, v13, v14, v15, v16, v17, v18, v19, v20))
    }
}

impl<T0: BinRead<Args = ()>, T1: BinRead<Args = ()>, T2: BinRead<Args = ()>, T3: BinRead<Args = ()>, T4: BinRead<Args = ()>, T5: BinRead<Args = ()>, T6: BinRead<Args = ()>, T7: BinRead<Args = ()>, T8: BinRead<Args = ()>, T9: BinRead<Args = ()>, T10: BinRead<Args = ()>, T11: BinRead<Args = ()>, T12: BinRead<Args = ()>, T13: BinRead<Args = ()>, T14: BinRead<Args = ()>, T15: BinRead<Args = ()>, T16: BinRead<Args = ()>, T17: BinRead<Args = ()>, T18: BinRead<Args = ()>, T19: BinRead<Args = ()>, T20: BinRead<Args = ()>, T21: BinRead<Args = ()>> BinRead for (T0, T1, T2, T3, T4, T5, T6, T7, T8, T9, T10, T11, T12, T13, T14, T15, T16, T17, T18, T19, T20, T21) {
    type Args = ();

    type Model = (T0::Model, T1::Model, T2::Model, T3::Model, T4::Model, T5::Model, T6::Model, T7::Model, T8::Model, T9::Model, T10::Model, T11::Model, T12::Model, T13::Model, T14::Model, T15::Model, T16::Model, T17::Model, T18::Model, T19::Model, T20::Model, T21::Model);

    open spec fn model(self) -> (T0::Model, T1::Model, T2::Model, T3::Model, T4::Model, T5::Model, T6::Model, T7::Model, T8::Model, T9::Model, T10::Model, T11::Model, T12::Model, T13::Model, T14::Model, T15::Model, T16::Model, T17::Model, T18::Model, T19::Model, T20::Model, T21::Model) {
        (self.0.model(), self.1.model(), self.2.model(), self.3.model(), self.4.model(), self.5.model(), self.6.model(), self.7.model(), self.8.model(), self.9.model(), self.10.model(), self.11.model(), self.12.model(), self.13.model(), self.14.model(), self.15.model(), self.16.model(), self.17.model(), self.18.model(), self.19.model(), self.20.model(), self.21.model())
    }

    open spec fn spec_read(s: StreamView, endian: Endian, args: ()) -> Result<
        ((T0::Model, T1::Model, T2::Model, T3::Model, T4::Model, T5::Model, T6::Model, T7::Model, T8::Model, T9::Model, T10::Model, T11::Model, T12::Model, T13::Model, T14::Model, T15::Model, T16::Model, T17::Model, T18::Model, T19::Model, T20::Model, T21::Model), int),
        Error,
    > {
        match T0::spec_read(s, endian, ()) {
            Err(e) => Err(e),
            Ok((m0, p0)) => {
                match T1::spec_read(StreamView { data: s.data, pos: p0 }, endian, ()) {
                    Err(e) => Err(e),
                    Ok((m1, p1)) => {
                        match T2::spec_read(StreamView { data: s.data, pos: p1 }, endian, ()) {
                            Err(e) => Err(e),
                            Ok((m2, p2)) => {
                                match T3::spec_read(StreamView { data: s.data, pos: p2 }, endian, ()) {
                                    Err(e) => Err(e),
                                    Ok((m3, p3)) => {
                                        match T4::spec_read(StreamView { data: s.data, pos: p3 }, endian, ()) {
                                            Err(e) => Err(e),
                                            Ok((m4, p4)) => {
                                                match T5::spec_read(StreamView { data: s.data, pos: p4 }, endian, ()) {
                                                    Err(e) => Err(e),
                                                    Ok((m5, p5)) => {
                                                        match T6::spec_read(StreamView { data: s.data, pos: p5 }, endian, ()) {
                                                            Err(e) => Err(e),
                                                            Ok((m6, p6)) => {
                                                                match T7::spec_read(StreamView { data: s.data, pos: p6 }, endian, ()) {
                                                                    Err(e) => Err(e),
                                                                    Ok((m7, p7)) => {
                                                                        match T8::spec_read(StreamView { data: s.data, pos: p7 }, endian, ()) {
                                                                            Err(e) => Err(e),
                                                                            Ok((m8, p8)) => {
                                                                                match T9::spec_read(StreamView { data: s.data, pos: p8 }, endian, ()) {
                                                                                    Err(e) => Err(e),
                                                                                    Ok((m9, p9)) => {
                                                                                        match T10::spec_read(StreamView { data: s.data, pos: p9 }, endian, ()) {
                                                                                            Err(e) => Err(e),
                                                                                            Ok((m10, p10)) => {
                                                                                                match T11::spec_read(StreamView { data: s.data, pos: p10 }, endian, ()) {
                                                                                                    Err(e) => Err(e),
                                                                                                    Ok((m11, p11)) => {
                                                                                                        match T12::spec_read(StreamView { data: s.data, pos: p11 }, endian, ()) {
                                                                                                            Err(e) => Err(e),
                                                                                                            Ok((m12, p12)) => {
                                                                                                                match T13::spec_read(StreamView { data: s.data, pos: p12 }, endian, ()) {
                                                                                                                    Err(e) => Err(e),
                                                                                                                    Ok((m13, p13)) => {
                                                                                                                        match T14::spec_read(StreamView { data: s.data, pos: p13 }, endian, ()) {
                                                                                                                            Err(e) => Err(e),
                                                                                                                            Ok((m14, p14)) => {
                                                                                                                                match T15::spec_read(StreamView { data: s.data, pos: p14 }, endian, ()) {
                                                                                                                                    Err(e) => Err(e),
                                                                                                                                    Ok((m15, p15)) => {
                                                                                                                                        match T16::spec_read(StreamView { data: s.data, pos: p15 }, endian, ()) {
                                                                                                                                            Err(e) => Err(e),
                                                                                                                                            Ok((m16, p16)) => {
                                                                                                                                                match T17::spec_read(StreamView { data: s.data, pos: p16 }, endian, ()) {
                                                                                                                                                    Err(e) => Err(e),
                                                                                                                                                    Ok((m17, p17)) => {
                                                                                                                                                        match T18::spec_read(StreamView { data: s.data, pos: p17 }, endian, ()) {
                                                                                                                                                            Err(e) => Err(e),
                                                                                                                                                            Ok((m18, p18)) => {
                                                                                                                                                                match T19::spec_read(StreamView { data: s.data, pos: p18 }, endian, ()) {
                                                                                                                                                                    Err(e) => Err(e),
                                                                                                                                                                    Ok((m19, p19)) => {
                                                                                                                                                                        match T20::spec_read(StreamView { data: s.data, pos: p19 }, endian, ()) {
                                                                                                                                                                            Err(e) => Err(e),
                                                                                                                                                                            Ok((m20, p20)) => {
                                                                                                                                                                                match T21::spec_read(StreamView { data: s.data, pos: p20 }, endian, ()) {
                                                                                                                                                                                    Err(e) => Err(e),
                                                                                                                                                                                    Ok((m21, p21)) => Ok(((m0, m1, m2, m3, m4, m5, m6, m7, m8, m9, m10, m11, m12, m13, m14, m15, m16, m17, m18, m19, m20, m21), p21)),
                                                                                                                                                                                }
                                                                                                                                                                            },
                                                                                                                                                                        }
                                                                                                                                                                    },
                                                                                                                                                                }
                                                                                                                                                            },
                                                                                                                                                        }
                                                                                                                                                    },
                                                                                                                                                }
                                                                                                                                            },
                                                                                                                                        }
                                                                                                                                    },
                                                                                                                                }
                                                                                                                            },
                                                                                                                        }
                                                                                                                    },
                                                                                                                }
                                                                                                            },
                                                                                                        }
                                                                                                    },
                                                                                                }
                                                                                            },
                                                                                        }
                                                                                    },
                                                                                }
                                                                            },
                                                                        }
                                                                    },
                                                                }
                                                            },
                                                        }
                                                    },
                                                }
                                            },
                                        }
                                    },
                                }
                            },
                        }
                    },
                }
            },
        }
    }

    open spec fn spec_after(m: (T0::Model, T1::Model, T2::Model, T3::Model, T4::Model, T5::Model, T6::Model, T7::Model, T8::Model, T9::Model, T10::Model, T11::Model, T12::Model, T13::Model, T14::Model, T15::Model, T16::Model, T17::Model, T18::Model, T19::Model, T20::Model, T21::Model), s: StreamView, endian: Endian, args: ()) -> Result<
        ((T0::Model, T1::Model, T2::Model, T3::Model, T4::Model, T5::Model, T6::Model, T7::Model, T8::Model, T9::Model, T10::Model, T11::Model, T12::Model, T13::Model, T14::Model, T15::Model, T16::Model, T17::Model, T18::Model, T19::Model, T20::Model, T21::Model), int),
        Error,
    > {
        match T0::spec_after(m.0, s, endian, ()) {
            Err(e) => Err(e),
            Ok((m0, p0)) => {
                match T1::spec_after(m.1, StreamView { data: s.data, pos: p0 }, endian, ()) {
                    Err(e) => Err(e),
                    Ok((m1, p1)) => {
                        match T2::spec_after(m.2, StreamView { data: s.data, pos: p1 }, endian, ()) {
                            Err(e) => Err(e),
                            Ok((m2, p2)) => {
                                match T3::spec_after(m.3, StreamView { data: s.data, pos: p2 }, endian, ()) {
                                    Err(e) => Err(e),
                                    Ok((m3, p3)) => {
                                        match T4::spec_after(m.4, StreamView { data: s.data, pos: p3 }, endian, ()) {
                                            Err(e) => Err(e),
                                            Ok((m4, p4)) => {
                                                match T5::spec_after(m.5, StreamView { data: s.data, pos: p4 }, endian, ()) {
                                                    Err(e) => Err(e),
                                                    Ok((m5, p5)) => {
                                                        match T6::spec_after(m.6, StreamView { data: s.data, pos: p5 }, endian, ()) {
                                                            Err(e) => Err(e),
                                                            Ok((m6, p6)) => {
                                                                match T7::spec_after(m.7, StreamView { data: s.data, pos: p6 }, endian, ()) {
                                                                    Err(e) => Err(e),
                                                                    Ok((m7, p7)) => {
                                                                        match T8::spec_after(m.8, StreamView { data: s.data, pos: p7 }, endian, ()) {
                                                                            Err(e) => Err(e),
                                                                            Ok((m8, p8)) => {
                                                                                match T9::spec_after(m.9, StreamView { data: s.data, pos: p8 }, endian, ()) {
                                                                                    Err(e) => Err(e),
                                                                                    Ok((m9, p9)) => {
                                                                                        match T10::spec_after(m.10, StreamView { data: s.data, pos: p9 }, endian, ()) {
                                                                                            Err(e) => Err(e),
                                                                                            Ok((m10, p10)) => {
                                                                                                match T11::spec_after(m.11, StreamView { data: s.data, pos: p10 }, endian, ()) {
                                                                                                    Err(e) => Err(e),
                                                                                                    Ok((m11, p11)) => {
                                                                                                        match T12::spec_after(m.12, StreamView { data: s.data, pos: p11 }, endian, ()) {
                                                                                                            Err(e) => Err(e),
                                                                                                            Ok((m12, p12)) => {
                                                                                                                match T13::spec_after(m.13, StreamView { data: s.data, pos: p12 }, endian, ()) {
                                                                                                                    Err(e) => Err(e),
                                                                                                                    Ok((m13, p13)) => {
                                                                                                                        match T14::spec_after(m.14, StreamView { data: s.data, pos: p13 }, endian, ()) {
                                                                                                                            Err(e) => Err(e),
                                                                                                                            Ok((m14, p14)) => {
                                                                                                                                match T15::spec_after(m.15, StreamView { data: s.data, pos: p14 }, endian, ()) {
                                                                                                                                    Err(e) => Err(e),
                                                                                                                                    Ok((m15, p15)) => {
                                                                                                                                        match T16::spec_after(m.16, StreamView { data: s.data, pos: p15 }, endian, ()) {
                                                                                                                                            Err(e) => Err(e),
                                                                                                                                            Ok((m16, p16)) => {
                                                                                                                                                match T17::spec_after(m.17, StreamView { data: s.data, pos: p16 }, endian, ()) {
                                                                                                                                                    Err(e) => Err(e),
                                                                                                                                                    Ok((m17, p17)) => {
                                                                                                                                                        match T18::spec_after(m.18, StreamView { data: s.data, pos: p17 }, endian, ()) {
                                                                                                                                                            Err(e) => Err(e),
                                                                                                                                                            Ok((m18, p18)) => {
                                                                                                                                                                match T19::spec_after(m.19, StreamView { data: s.data, pos: p18 }, endian, ()) {
                                                                                                                                                                    Err(e) => Err(e),
                                                                                                                                                                    Ok((m19, p19)) => {
                                                                                                                                                                        match T20::spec_after(m.20, StreamView { data: s.data, pos: p19 }, endian, ()) {
                                                                                                                                                                            Err(e) => Err(e),
                                                                                                                                                                            Ok((m20, p20)) => {
                                                                                                                                                                                match T21::spec_after(m.21, StreamView { data: s.data, pos: p20 }, endian, ()) {
                                                                                                                                                                                    Err(e) => Err(e),
                                                                                                                                                                                    Ok((m21, p21)) => Ok(((m0, m1, m2, m3, m4, m5, m6, m7, m8, m9, m10, m11, m12, m13, m14, m15, m16, m17, m18, m19, m20, m21), p21)),
                                                                                                                                                                                }
                                                                                                                                                                            },
                                                                                                                                                                        }
                                                                                                                                                                    },
                                                                                                                                                                }
                                                                                                                                                            },
                                                                                                                                                        }
                                                                                                                                                    },
                                                                                                                                                }
                                                                                                                                            },
                                                                                                                                        }
                                                                                                                                    },
                                                                                                                                }
                                                                                                                            },
                                                                                                                        }
                                                                                                                    },
                                                                                                                }
                                                                                                            },
                                                                                                        }
                                                                                                    },
                                                                                                }
                                                                                            },
                                                                                        }
                                                                                    },
                                                                                }
                                                                            },
                                                                        }
                                                                    },
                                                                }
                                                            },
                                                        }
                                                    },
                                                }
                                            },
                                        }
                                    },
                                }
                            },
                        }
                    },
                }
            },
        }
    }

    open spec fn restores_on_failure() -> bool {
        false
    }

    fn read_options(reader: &mut Cursor, options: &ReadOptions, args: ()) -> (r: BinResult<
        (T0, T1, T2, T3, T4, T5, T6, T7, T8, T9, T10, T11, T12, T13, T14, T15, T16, T17, T18, T19, T20, T21),
    >) {
        proof {
            assert(!Self::restores_on_failure());
        }
        let v0 = match T0::read_options(reader, options, ()) {
            Ok(v) => v,
            Err(e) => {
                return Err(e);
            },
        };
        let v1 = match T1::read_options(reader, options, ()) {
            Ok(v) => v,
            Err(e) => {
                return Err(e);
            },
        };
        let v2 = match T2::read_options(reader, options, ()) {
            Ok(v) => v,
            Err(e) => {
                return Err(e);
            },
        };
        let v3 = match T3::read_options(reader, options, ()) {
            Ok(v) => v,
            Err(e) => {
                return Err(e);
            },
        };
        let v4 = match T4::read_options(reader, options, ()) {
            Ok(v) => v,
            Err(e) => {
                return Err(e);
            },
        };
        let v5 = match T5::read_options(reader, options, ()) {
            Ok(v) => v,
            Err(e) => {
                return Err(e);
            },
        };
        let v6 = match T6::read_options(reader, options, ()) {
            Ok(v) => v,
            Err(e) => {
                return Err(e);
            },
        };
        let v7 = match T7::read_options(reader, options, ()) {
            Ok(v) => v,
            Err(e) => {
                return Err(e);
            },
        };
        let v8 = match T8::read_options(reader, options, ()) {
            Ok(v) => v,
            Err(e) => {
                return Err(e);
            },
        };
        let v9 = match T9::read_options(reader, options, ()) {
            Ok(v) => v,
            Err(e) => {
                return Err(e);
            },
        };
        let v10 = match T10::read_options(reader, options, ()) {
            Ok(v) => v,
            Err(e) => {
                return Err(e);
            },
        };
        let v11 = match T11::read_options(reader, options, ()) {
            Ok(v) => v,
            Err(e) => {
                return Err(e);
            },
        };
        let v12 = match T12::read_options(reader, options, ()) {
            Ok(v) => v,
            Err(e) => {
                return Err(e);
            },
        };
        let v13 = match T13::read_options(reader, options, ()) {
            Ok(v) => v,
            Err(e) => {
                return Err(e);
            },
        };
        let v14 = match T14::read_options(reader, options, ()) {
            Ok(v) => v,
            Err(e) => {
                return Err(e);
            },
        };
        let v15 = match T15::read_options(reader, options, ()) {
            Ok(v) => v,
            Err(e) => {
                return Err(e);
            },
        };
        let v16 = match T16::read_options(reader, options, ()) {
            Ok(v) => v,
            Err(e) => {
                return Err(e);
            },
        };
        let v17 = match T17::read_options(reader, options, ()) {
            Ok(v) => v,
            Err(e) => {
                return Err(e);
            },
        };
        let v18 = match T18::read_options(reader, options, ()) {
            Ok(v) => v,
            Err(e) => {
                return Err(e);
            },
        };
        let v19 = match T19::read_options(reader, options, ()) {
            Ok(v) => v,
            Err(e) => {
                return Err(e);
            },
        };
        let v20 = match T20::read_options(reader, options, ()) {
            Ok(v) => v,
            Err(e) => {
                return Err(e);
            },
        };
        let v21 = match T21::read_options(reader, options, ()) {
            Ok(v) => v,
            Err(e) => {
                return Err(e);
            },
        };
        Ok((v0, v1, v2, v3, v4, v5, v6, v7, v8, v9, v10, v11, v12, v13, v14, v15, v16, v17, v18, v19, v20, v21))
    }

    fn after_parse(self, reader: &mut Cursor, options: &ReadOptions, args: ()) -> (r: BinResult<
        (T0, T1, T2, T3, T4, T5, T6, T7, T8, T9, T10, T11, T12, T13, T14, T15, T16, T17, T18, T19, T20, T21),
    >) {
        let (x0, x1, x2, x3, x4, x5, x6, x7, x8, x9, x10, x11, x12, x13, x14, x15, x16, x17, x18, x19, x20, x21) = self;
        let v0 = match x0.after_parse(reader, options, ()) {
            Ok(v) => v,
            Err(e) => {
                return Err(e);
            },
        };
        let v1 = match x1.after_parse(reader, options, ()) {
            Ok(v) => v,
            Err(e) => {
                return Err(e);
            },
        };
        let v2 = match x2.after_parse(reader, options, ()) {
            Ok(v) => v,
            Err(e) => {
                return Err(e);
            },
        };
        let v3 = match x3.after_parse(reader, options, ()) {
            Ok(v) => v,
            Err(e) => {
                return Err(e);
            },
        };
        let v4 = match x4.after_parse(reader, options, ()) {
            Ok(v) => v,
            Err(e) => {
                return Err(e);
            },
        };
        let v5 = match x5.after_parse(reader, options, ()) {
            Ok(v) => v,
            Err(e) => {
                return Err(e);
            },
        };
        let v6 = match x6.after_parse(reader, options, ()) {
            Ok(v) => v,
            Err(e) => {
                return Err(e);
            },
        };
        let v7 = match x7.after_parse(reader, options, ()) {
            Ok(v) => v,
            Err(e) => {
                return Err(e);
            },
        };
        let v8 = match x8.after_parse(reader, options, ()) {
            Ok(v) => v,
            Err(e) => {
                return Err(e);
            },
        };
        let v9 = match x9.after_parse(reader, options, ()) {
            Ok(v) => v,
            Err(e) => {
                return Err(e);
            },
        };
        let v10 = match x10.after_parse(reader, options, ()) {
            Ok(v) => v,
            Err(e) => {
                return Err(e);
            },
        };
        let v11 = match x11.after_parse(reader, options, ()) {
            Ok(v) => v,
            Err(e) => {
                return Err(e);
            },
        };
        let v12 = match x12.after_parse(reader, options, ()) {
            Ok(v) => v,
            Err(e) => {
                return Err(e);
            },
        };
        let v13 = match x13.after_parse(reader, options, ()) {
            Ok(v) => v,
            Err(e) => {
                return Err(e);
            },
        };
        let v14 = match x14.after_parse(reader, options, ()) {
            Ok(v) => v,
            Err(e) => {
                return Err(e);
            },
        };
        let v15 = match x15.after_parse(reader, options, ()) {
            Ok(v) => v,
            Err(e) => {
                return Err(e);
            },
        };
        let v16 = match x16.after_parse(reader, options, ()) {
            Ok(v) => v,
            Err(e) => {
                return Err(e);
            },
        };
        let v17 = match x17.after_parse(reader, options, ()) {
            Ok(v) => v,
            Err(e) => {
                return Err(e);
            },
        };
        let v18 = match x18.after_parse(reader, options, ()) {
            Ok(v) => v,
            Err(e) => {
                return Err(e);
            },
        };
        let v19 = match x19.after_parse(reader, options, ()) {
            Ok(v) => v,
            Err(e) => {
                return Err(e);
            },
        };
        let v20 = match x20.after_parse(reader, options, ()) {
            Ok(v) => v,
            Err(e) => {
                return Err(e);
            },
        };
        let v21 = match x21.after_parse(reader, options, ()) {
            Ok(v) => v,
            Err(e) => {
                return Err(e);
            },
        };
        Ok((v0, v1, v2, v3, v4, v5, v6, v7, v8, v9, v10, v11, v12, v13, v14, v15, v16, v17, v18, v19, v20, v21))
    }
}

impl<T0: BinRead<Args = ()>, T1: BinRead<Args = ()>, T2: BinRead<Args = ()>, T3: BinRead<Args = ()>, T4: BinRead<Args = ()>, T5: BinRead<Args = ()>, T6: BinRead<Args = ()>, T7: BinRead<Args = ()>, T8: BinRead<Args = ()>, T9: BinRead<Args = ()>, T10: BinRead<Args = ()>, T11: BinRead<Args = ()>, T12: BinRead<Args = ()>, T13: BinRead<Args = ()>, T14: BinRead<Args = ()>, T15: BinRead<Args = ()>, T16: BinRead<Args = ()>, T17: BinRead<Args = ()>, T18: BinRead<Args = ()>, T19: BinRead<Args = ()>, T20: BinRead<Args = ()>, T21: BinRead<Args = ()>, T22: BinRead<Args = ()>> BinRead for (T0, T1, T2, T3, T4, T5, T6, T7, T8, T9, T10, T11, T12, T13, T14, T15, T16, T17, T18, T19, T20, T21, T22) {
    type Args = ();

    type Model = (T0::Model, T1::Model, T2::Model, T3::Model, T4::Model, T5::Model, T6::Model, T7::Model, T8::Model, T9::Model, T10::Model, T11::Model, T12::Model, T13::Model, T14::Model, T15::Model, T16::Model, T17::Model, T18::Model, T19::Model, T20::Model, T21::Model, T22::Model);

    open spec fn model(self) -> (T0::Model, T1::Model, T2::Model, T3::Model, T4::Model, T5::Model, T6::Model, T7::Model, T8::Model, T9::Model, T10::Model, T11::Model, T12::Model, T13::Model, T14::Model, T15::Model, T16::Model, T17::Model, T18::Model, T19::Model, T20::Model, T21::Model, T22::Model) {
        (self.0.model(), self.1.model(), self.2.model(), self.3.model(), self.4.model(), self.5.model(), self.6.model(), self.7.model(), self.8.model(), self.9.model(), self.10.model(), self.11.model(), self.12.model(), self.13.model(), self.14.model(), self.15.model(), self.16.model(), self.17.model(), self.18.model(), self.19.model(), self.20.model(), self.21.model(), self.22.model())
    }

    open spec fn spec_read(s: StreamView, endian: Endian, args: ()) -> Result<
        ((T0::Model, T1::Model, T2::Model, T3::Model, T4::Model, T5::Model, T6::Model, T7::Model, T8::Model, T9::Model, T10::Model, T11::Model, T12::Model, T13::Model, T14::Model, T15::Model, T16::Model, T17::Model, T18::Model, T19::Model, T20::Model, T21::Model, T22::Model), int),
        Error,
    > {
        match T0::spec_read(s, endian, ()) {
            Err(e) => Err(e),
            Ok((m0, p0)) => {
                match T1::spec_read(StreamView { data: s.data, pos: p0 }, endian, ()) {
                    Err(e) => Err(e),
                    Ok((m1, p1)) => {
                        match T2::spec_read(StreamView { data: s.data, pos: p1 }, endian, ()) {
                            Err(e) => Err(e),
                            Ok((m2, p2)) => {
                                match T3::spec_read(StreamView { data: s.data, pos: p2 }, endian, ()) {
                                    Err(e) => Err(e),
                                    Ok((m3, p3)) => {
                                        match T4::spec_read(StreamView { data: s.data, pos: p3 }, endian, ()) {
                                            Err(e) => Err(e),
                                            Ok((m4, p4)) => {
                                                match T5::spec_read(StreamView { data: s.data, pos: p4 }, endian, ()) {
                                                    Err(e) => Err(e),
                                                    Ok((m5, p5)) => {
                                                        match T6::spec_read(StreamView { data: s.data, pos: p5 }, endian, ()) {
                                                            Err(e) => Err(e),
                                                            Ok((m6, p6)) => {
                                                                match T7::spec_read(StreamView { data: s.data, pos: p6 }, endian, ()) {
                                                                    Err(e) => Err(e),
                                                                    Ok((m7, p7)) => {
                                                                        match T8::spec_read(StreamView { data: s.data, pos: p7 }, endian, ()) {
                                                                            Err(e) => Err(e),
                                                                            Ok((m8, p8)) => {
                                                                                match T9::spec_read(StreamView { data: s.data, pos: p8 }, endian, ()) {
                                                                                    Err(e) => Err(e),
                                                                                    Ok((m9, p9)) => {
                                                                                        match T10::spec_read(StreamView { data: s.data, pos: p9 }, endian, ()) {
                                                                                            Err(e) => Err(e),
                                                                                            Ok((m10, p10)) => {
                                                                                                match T11::spec_read(StreamView { data: s.data, pos: p10 }, endian, ()) {
                                                                                                    Err(e) => Err(e),
                                                                                                    Ok((m11, p11)) => {
                                                                                                        match T12::spec_read(StreamView { data: s.data, pos: p11 }, endian, ()) {
                                                                                                            Err(e) => Err(e),
                                                                                                            Ok((m12, p12)) => {
                                                                                                                match T13::spec_read(StreamView { data: s.data, pos: p12 }, endian, ()) {
                                                                                                                    Err(e) => Err(e),
                                                                                                                    Ok((m13, p13)) => {
                                                                                                                        match T14::spec_read(StreamView { data: s.data, pos: p13 }, endian, ()) {
                                                                                                                            Err(e) => Err(e),
                                                                                                                            Ok((m14, p14)) => {
                                                                                                                                match T15::spec_read(StreamView { data: s.data, pos: p14 }, endian, ()) {
                                                                                                                                    Err(e) => Err(e),
                                                                                                                                    Ok((m15, p15)) => {
                                                                                                                                        match T16::spec_read(StreamView { data: s.data, pos: p15 }, endian, ()) {
                                                                                                                                            Err(e) => Err(e),
                                                                                                                                            Ok((m16, p16)) => {
                                                                                                                                                match T17::spec_read(StreamView { data: s.data, pos: p16 }, endian, ()) {
                                                                                                                                                    Err(e) => Err(e),
                                                                                                                                                    Ok((m17, p17)) => {
                                                                                                                                                        match T18::spec_read(StreamView { data: s.data, pos: p17 }, endian, ()) {
                                                                                                                                                            Err(e) => Err(e),
                                                                                                                                                            Ok((m18, p18)) => {
                                                                                                                                                                match T19::spec_read(StreamView { data: s.data, pos: p18 }, endian, ()) {
                                                                                                                                                                    Err(e) => Err(e),
                                                                                                                                                                    Ok((m19, p19)) => {
                                                                                                                                                                        match T20::spec_read(StreamView { data: s.data, pos: p19 }, endian, ()) {
                                                                                                                                                                            Err(e) => Err(e),
                                                                                                                                                                            Ok((m20, p20)) => {
                                                                                                                                                                                match T21::spec_read(StreamView { data: s.data, pos: p20 }, endian, ()) {
                                                                                                                                                                                    Err(e) => Err(e),
                                                                                                                                                                                    Ok((m21, p21)) => {
                                                                                                                                                                                        match T22::spec_read(StreamView { data: s.data, pos: p21 }, endian, ()) {
                                                                                                                                                                                            Err(e) => Err(e),
                                                                                                                                                                                            Ok((m22, p22)) => Ok(((m0, m1, m2, m3, m4, m5, m6, m7, m8, m9, m10, m11, m12, m13, m14, m15, m16, m17, m18, m19, m20, m21, m22), p22)),
                                                                                                                                                                                        }
                                                                                                                                                                                    },
                                                                                                                                                                                }
                                                                                                                                                                            },
                                                                                                                                                                        }
                                                                                                                                                                    },
                                                                                                                                                                }
                                                                                                                                                            },
                                                                                                                                                        }
                                                                                                                                                    },
                                                                                                                                                }
                                                                                                                                            },
                                                                                                                                        }
                                                                                                                                    },
                                                                                                                                }
                                                                                                                            },
                                                                                                                        }
                                                                                                                    },
                                                                                                                }
                                                                                                            },
                                                                                                        }
                                                                                                    },
                                                                                                }
                                                                                            },
                                                                                        }
                                                                                    },
                                                                                }
                                                                            },
                                                                        }
                                                                    },
                                                                }
                                                            },
                                                        }
                                                    },
                                                }
                                            },
                                        }
                                    },
                                }
                            },
                        }
                    },
                }
            },
        }
    }

    open spec fn spec_after(m: (T0::Model, T1::Model, T2::Model, T3::Model, T4::Model, T5::Model, T6::Model, T7::Model, T8::Model, T9::Model, T10::Model, T11::Model, T12::Model, T13::Model, T14::Model, T15::Model, T16::Model, T17::Model, T18::Model, T19::Model, T20::Model, T21::Model, T22::Model), s: StreamView, endian: Endian, args: ()) -> Result<
        ((T0::Model, T1::Model, T2::Model, T3::Model, T4::Model, T5::Model, T6::Model, T7::Model, T8::Model, T9::Model, T10::Model, T11::Model, T12::Model, T13::Model, T14::Model, T15::Model, T16::Model, T17::Model, T18::Model, T19::Model, T20::Model, T21::Model, T22::Model), int),
        Error,
    > {
        match T0::spec_after(m.0, s, endian, ()) {
            Err(e) => Err(e),
            Ok((m0, p0)) => {
                match T1::spec_after(m.1, StreamView { data: s.data, pos: p0 }, endian, ()) {
                    Err(e) => Err(e),
                    Ok((m1, p1)) => {
                        match T2::spec_after(m.2, StreamView { data: s.data, pos: p1 }, endian, ()) {
                            Err(e) => Err(e),
                            Ok((m2, p2)) => {
                                match T3::spec_after(m.3, StreamView { data: s.data, pos: p2 }, endian, ()) {
                                    Err(e) => Err(e),
                                    Ok((m3, p3)) => {
                                        match T4::spec_after(m.4, StreamView { data: s.data, pos: p3 }, endian, ()) {
                                            Err(e) => Err(e),
                                            Ok((m4, p4)) => {
                                                match T5::spec_after(m.5, StreamView { data: s.data, pos: p4 }, endian, ()) {
                                                    Err(e) => Err(e),
                                                    Ok((m5, p5)) => {
                                                        match T6::spec_after(m.6, StreamView { data: s.data, pos: p5 }, endian, ()) {
                                                            Err(e) => Err(e),
                                                            Ok((m6, p6)) => {
                                                                match T7::spec_after(m.7, StreamView { data: s.data, pos: p6 }, endian, ()) {
                                                                    Err(e) => Err(e),
                                                                    Ok((m7, p7)) => {
                                                                        match T8::spec_after(m.8, StreamView { data: s.data, pos: p7 }, endian, ()) {
                                                                            Err(e) => Err(e),
                                                                            Ok((m8, p8)) => {
                                                                                match T9::spec_after(m.9, StreamView { data: s.data, pos: p8 }, endian, ()) {
                                                                                    Err(e) => Err(e),
                                                                                    Ok((m9, p9)) => {
                                                                                        match T10::spec_after(m.10, StreamView { data: s.data, pos: p9 }, endian, ()) {
                                                                                            Err(e) => Err(e),
                                                                                            Ok((m10, p10)) => {
                                                                                                match T11::spec_after(m.11, StreamView { data: s.data, pos: p10 }, endian, ()) {
                                                                                                    Err(e) => Err(e),
                                                                                                    Ok((m11, p11)) => {
                                                                                                        match T12::spec_after(m.12, StreamView { data: s.data, pos: p11 }, endian, ()) {
                                                                                                            Err(e) => Err(e),
                                                                                                            Ok((m12, p12)) => {
                                                                                                                match T13::spec_after(m.13, StreamView { data: s.data, pos: p12 }, endian, ()) {
                                                                                                                    Err(e) => Err(e),
                                                                                                                    Ok((m13, p13)) => {
                                                                                                                        match T14::spec_after(m.14, StreamView { data: s.data, pos: p13 }, endian, ()) {
                                                                                                                            Err(e) => Err(e),
                                                                                                                            Ok((m14, p14)) => {
                                                                                                                                match T15::spec_after(m.15, StreamView { data: s.data, pos: p14 }, endian, ()) {
                                                                                                                                    Err(e) => Err(e),
                                                                                                                                    Ok((m15, p15)) => {
                                                                                                                                        match T16::spec_after(m.16, StreamView { data: s.data, pos: p15 }, endian, ()) {
                                                                                                                                            Err(e) => Err(e),
                                                                                                                                            Ok((m16, p16)) => {
                                                                                                                                                match T17::spec_after(m.17, StreamView { data: s.data, pos: p16 }, endian, ()) {
                                                                                                                                                    Err(e) => Err(e),
                                                                                                                                                    Ok((m17, p17)) => {
                                                                                                                                                        match T18::spec_after(m.18, StreamView { data: s.data, pos: p17 }, endian, ()) {
                                                                                                                                                            Err(e) => Err(e),
                                                                                                                                                            Ok((m18, p18)) => {
                                                                                                                                                                match T19::spec_after(m.19, StreamView { data: s.data, pos: p18 }, endian, ()) {
                                                                                                                                                                    Err(e) => Err(e),
                                                                                                                                                                    Ok((m19, p19)) => {
                                                                                                                                                                        match T20::spec_after(m.20, StreamView { data: s.data, pos: p19 }, endian, ()) {
                                                                                                                                                                            Err(e) => Err(e),
                                                                                                                                                                            Ok((m20, p20)) => {
                                                                                                                                                                                match T21::spec_after(m.21, StreamView { data: s.data, pos: p20 }, endian, ()) {
                                                                                                                                                                                    Err(e) => Err(e),
                                                                                                                                                                                    Ok((m21, p21)) => {
                                                                                                                                                                                        match T22::spec_after(m.22, StreamView { data: s.data, pos: p21 }, endian, ()) {
                                                                                                                                                                                            Err(e) => Err(e),
                                                                                                                                                                                            Ok((m22, p22)) => Ok(((m0, m1, m2, m3, m4, m5, m6, m7, m8, m9, m10, m11, m12, m13, m14, m15, m16, m17, m18, m19, m20, m21, m22), p22)),
                                                                                                                                                                                        }
                                                                                                                                                                                    },
                                                                                                                                                                                }
                                                                                                                                                                            },
                                                                                                                                                                        }
                                                                                                                                                                    },
                                                                                                                                                                }
                                                                                                                                                            },
                                                                                                                                                        }
                                                                                                                                                    },
                                                                                                                                                }
                                                                                                                                            },
                                                                                                                                        }
                                                                                                                                    },
                                                                                                                                }
                                                                                                                            },
                                                                                                                        }
                                                                                                                    },
                                                                                                                }
                                                                                                            },
                                                                                                        }
                                                                                                    },
                                                                                                }
                                                                                            },
                                                                                        }
                                                                                    },
                                                                                }
                                                                            },
                                                                        }
                                                                    },
                                                                }
                                                            },
                                                        }
                                                    },
                                                }
                                            },
                                        }
                                    },
                                }
                            },
                        }
                    },
                }
            },
        }
    }

    open spec fn restores_on_failure() -> bool {
        false
    }

    fn read_options(reader: &mut Cursor, options: &ReadOptions, args: ()) -> (r: BinResult<
        (T0, T1, T2, T3, T4, T5, T6, T7, T8, T9, T10, T11, T12, T13, T14, T15, T16, T17, T18, T19, T20, T21, T22),
    >) {
        proof {
            assert(!Self::restores_on_failure());
        }
        let v0 = match T0::read_options(reader, options, ()) {
            Ok(v) => v,
            Err(e) => {
                return Err(e);
            },
        };
        let v1 = match T1::read_options(reader, options, ()) {
            Ok(v) => v,
            Err(e) => {
                return Err(e);
            },
        };
        let v2 = match T2::read_options(reader, options, ()) {
            Ok(v) => v,
            Err(e) => {
                return Err(e);
            },
        };
        let v3 = match T3::read_options(reader, options, ()) {
            Ok(v) => v,
            Err(e) => {
                return Err(e);
            },
        };
        let v4 = match T4::read_options(reader, options, ()) {
            Ok(v) => v,
            Err(e) => {
                return Err(e);
            },
        };
        let v5 = match T5::read_options(reader, options, ()) {
            Ok(v) => v,
            Err(e) => {
                return Err(e);
            },
        };
        let v6 = match T6::read_options(reader, options, ()) {
            Ok(v) => v,
            Err(e) => {
                return Err(e);
            },
        };
        let v7 = match T7::read_options(reader, options, ()) {
            Ok(v) => v,
            Err(e) => {
                return Err(e);
            },
        };
        let v8 = match T8::read_options(reader, options, ()) {
            Ok(v) => v,
            Err(e) => {
                return Err(e);
            },
        };
        let v9 = match T9::read_options(reader, options, ()) {
            Ok(v) => v,
            Err(e) => {
                return Err(e);
            },
        };
        let v10 = match T10::read_options(reader, options, ()) {
            Ok(v) => v,
            Err(e) => {
                return Err(e);
            },
        };
        let v11 = match T11::read_options(reader, options, ()) {
            Ok(v) => v,
            Err(e) => {
                return Err(e);
            },
        };
        let v12 = match T12::read_options(reader, options, ()) {
            Ok(v) => v,
            Err(e) => {
                return Err(e);
            },
        };
        let v13 = match T13::read_options(reader, options, ()) {
            Ok(v) => v,
            Err(e) => {
                return Err(e);
            },
        };
        let v14 = match T14::read_options(reader, options, ()) {
            Ok(v) => v,
            Err(e) => {
                return Err(e);
            },
        };
        let v15 = match T15::read_options(reader, options, ()) {
            Ok(v) => v,
            Err(e) => {
                return Err(e);
            },
        };
        let v16 = match T16::read_options(reader, options, ()) {
            Ok(v) => v,
            Err(e) => {
                return Err(e);
            },
        };
        let v17 = match T17::read_options(reader, options, ()) {
            Ok(v) => v,
            Err(e) => {
                return Err(e);
            },
        };
        let v18 = match T18::read_options(reader, options, ()) {
            Ok(v) => v,
            Err(e) => {
                return Err(e);
            },
        };
        let v19 = match T19::read_options(reader, options, ()) {
            Ok(v) => v,
            Err(e) => {
                return Err(e);
            },
        };
        let v20 = match T20::read_options(reader, options, ()) {
            Ok(v) => v,
            Err(e) => {
                return Err(e);
            },
        };
        let v21 = match T21::read_options(reader, options, ()) {
            Ok(v) => v,
            Err(e) => {
                return Err(e);
            },
        };
        let v22 = match T22::read_options(reader, options, ()) {
            Ok(v) => v,
            Err(e) => {
                return Err(e);
            },
        };
        Ok((v0, v1, v2, v3, v4, v5, v6, v7, v8, v9, v10, v11, v12, v13, v14, v15, v16, v17, v18, v19, v20, v21, v22))
    }

    fn after_parse(self, reader: &mut Cursor, options: &ReadOptions, args: ()) -> (r: BinResult<
        (T0, T1, T2, T3, T4, T5, T6, T7, T8, T9, T10, T11, T12, T13, T14, T15, T16, T17, T18, T19, T20, T21, T22),
    >) {
        let (x0, x1, x2, x3, x4, x5, x6, x7, x8, x9, x10, x11, x12, x13, x14, x15, x16, x17, x18, x19, x20, x21, x22) = self;
        let v0 = match x0.after_parse(reader, options, ()) {
            Ok(v) => v,
            Err(e) => {
                return Err(e);
            },
        };
        let v1 = match x1.after_parse(reader, options, ()) {
            Ok(v) => v,
            Err(e) => {
                return Err(e);
            },
        };
        let v2 = match x2.after_parse(reader, options, ()) {
            Ok(v) => v,
            Err(e) => {
                return Err(e);
            },
        };
        let v3 = match x3.after_parse(reader, options, ()) {
            Ok(v) => v,
            Err(e) => {
                return Err(e);
            },
        };
        let v4 = match x4.after_parse(reader, options, ()) {
            Ok(v) => v,
            Err(e) => {
                return Err(e);
            },
        };
        let v5 = match x5.after_parse(reader, options, ()) {
            Ok(v) => v,
            Err(e) => {
                return Err(e);
            },
        };
        let v6 = match x6.after_parse(reader, options, ()) {
            Ok(v) => v,
            Err(e) => {
                return Err(e);
            },
        };
        let v7 = match x7.after_parse(reader, options, ()) {
            Ok(v) => v,
            Err(e) => {
                return Err(e);
            },
        };
        let v8 = match x8.after_parse(reader, options, ()) {
            Ok(v) => v,
            Err(e) => {
                return Err(e);
            },
        };
        let v9 = match x9.after_parse(reader, options, ()) {
            Ok(v) => v,
            Err(e) => {
                return Err(e);
            },
        };
        let v10 = match x10.after_parse(reader, options, ()) {
            Ok(v) => v,
            Err(e) => {
                return Err(e);
            },
        };
        let v11 = match x11.after_parse(reader, options, ()) {
            Ok(v) => v,
            Err(e) => {
                return Err(e);
            },
        };
        let v12 = match x12.after_parse(reader, options, ()) {
            Ok(v) => v,
            Err(e) => {
                return Err(e);
            },
        };
        let v13 = match x13.after_parse(reader, options, ()) {
            Ok(v) => v,
            Err(e) => {
                return Err(e);
            },
        };
        let v14 = match x14.after_parse(reader, options, ()) {
            Ok(v) => v,
            Err(e) => {
                return Err(e);
            },
        };
        let v15 = match x15.after_parse(reader, options, ()) {
            Ok(v) => v,
            Err(e) => {
                return Err(e);
            },
        };
        let v16 = match x16.after_parse(reader, options, ()) {
            Ok(v) => v,
            Err(e) => {
                return Err(e);
            },
        };
        let v17 = match x17.after_parse(reader, options, ()) {
            Ok(v) => v,
            Err(e) => {
                return Err(e);
            },
        };
        let v18 = match x18.after_parse(reader, options, ()) {
            Ok(v) => v,
            Err(e) => {
                return Err(e);
            },
        };
        let v19 = match x19.after_parse(reader, options, ()) {
            Ok(v) => v,
            Err(e) => {
                return Err(e);
            },
        };
        let v20 = match x20.after_parse(reader, options, ()) {
            Ok(v) => v,
            Err(e) => {
                return Err(e);
            },
        };
        let v21 = match x21.after_parse(reader, options, ()) {
            Ok(v) => v,
            Err(e) => {
                return Err(e);
            },
        };
        let v22 = match x22.after_parse(reader, options, ()) {
            Ok(v) => v,
            Err(e) => {
                return Err(e);
            },
        };
        Ok((v0, v1, v2, v3, v4, v5, v6, v7, v8, v9, v10, v11, v12, v13, v14, v15, v16, v17, v18, v19, v20, v21, v22))
    }
}

impl<T0: BinRead<Args = ()>, T1: BinRead<Args = ()>, T2: BinRead<Args = ()>, T3: BinRead<Args = ()>, T4: BinRead<Args = ()>, T5: BinRead<Args = ()>, T6: BinRead<Args = ()>, T7: BinRead<Args = ()>, T8: BinRead<Args = ()>, T9: BinRead<Args = ()>, T10: BinRead<Args = ()>, T11: BinRead<Args = ()>, T12: BinRead<Args = ()>, T13: BinRead<Args = ()>, T14: BinRead<Args = ()>, T15: BinRead<Args = ()>, T16: BinRead<Args = ()>, T17: BinRead<Args = ()>, T18: BinRead<Args = ()>, T19: BinRead<Args = ()>, T20: BinRead<Args = ()>, T21: BinRead<Args = ()>, T22: BinRead<Args = ()>, T23: BinRead<Args = ()>> BinRead for (T0, T1, T2, T3, T4, T5, T6, T7, T8, T9, T10, T11, T12, T13, T14, T15, T16, T17, T18, T19, T20, T21, T22, T23) {
    type Args = ();

    type Model = (T0::Model, T1::Model, T2::Model, T3::Model, T4::Model, T5::Model, T6::Model, T7::Model, T8::Model, T9::Model, T10::Model, T11::Model, T12::Model, T13::Model, T14::Model, T15::Model, T16::Model, T17::Model, T18::Model, T19::Model, T20::Model, T21::Model, T22::Model, T23::Model);

    open spec fn model(self) -> (T0::Model, T1::Model, T2::Model, T3::Model, T4::Model, T5::Model, T6::Model, T7::Model, T8::Model, T9::Model, T10::Model, T11::Model, T12::Model, T13::Model, T14::Model, T15::Model, T16::Model, T17::Model, T18::Model, T19::Model, T20::Model, T21::Model, T22::Model, T23::Model) {
        (self.0.model(), self.1.model(), self.2.model(), self.3.model(), self.4.model(), self.5.model(), self.6.model(), self.7.model(), self.8.model(), self.9.model(), self.10.model(), self.11.model(), self.12.model(), self.13.model(), self.14.model(), self.15.model(), self.16.model(), self.17.model(), self.18.model(), self.19.model(), self.20.model(), self.21.model(), self.22.model(), self.23.model())
    }

    open spec fn spec_read(s: StreamView, endian: Endian, args: ()) -> Result<
        ((T0::Model, T1::Model, T2::Model, T3::Model, T4::Model, T5::Model, T6::Model, T7::Model, T8::Model, T9::Model, T10::Model, T11::Model, T12::Model, T13::Model, T14::Model, T15::Model, T16::Model, T17::Model, T18::Model, T19::Model, T20::Model, T21::Model, T22::Model, T23::Model), int),
        Error,
    > {
        match T0::spec_read(s, endian, ()) {
            Err(e) => Err(e),
            Ok((m0, p0)) => {
                match T1::spec_read(StreamView { data: s.data, pos: p0 }, endian, ()) {
                    Err(e) => Err(e),
                    Ok((m1, p1)) => {
                        match T2::spec_read(StreamView { data: s.data, pos: p1 }, endian, ()) {
                            Err(e) => Err(e),
                            Ok((m2, p2)) => {
                                match T3::spec_read(StreamView { data: s.data, pos: p2 }, endian, ()) {
                                    Err(e) => Err(e),
                                    Ok((m3, p3)) => {
                                        match T4::spec_read(StreamView { data: s.data, pos: p3 }, endian, ()) {
                                            Err(e) => Err(e),
                                            Ok((m4, p4)) => {
                                                match T5::spec_read(StreamView { data: s.data, pos: p4 }, endian, ()) {
                                                    Err(e) => Err(e),
                                                    Ok((m5, p5)) => {
                                                        match T6::spec_read(StreamView { data: s.data, pos: p5 }, endian, ()) {
                                                            Err(e) => Err(e),
                                                            Ok((m6, p6)) => {
                                                                match T7::spec_read(StreamView { data: s.data, pos: p6 }, endian, ()) {
                                                                    Err(e) => Err(e),
                                                                    Ok((m7, p7)) => {
                                                                        match T8::spec_read(StreamView { data: s.data, pos: p7 }, endian, ()) {
                                                                            Err(e) => Err(e),
                                                                            Ok((m8, p8)) => {
                                                                                match T9::spec_read(StreamView { data: s.data, pos: p8 }, endian, ()) {
                                                                                    Err(e) => Err(e),
                                                                                    Ok((m9, p9)) => {
                                                                                        match T10::spec_read(StreamView { data: s.data, pos: p9 }, endian, ()) {
                                                                                            Err(e) => Err(e),
                                                                                            Ok((m10, p10)) => {
                                                                                                match T11::spec_read(StreamView { data: s.data, pos: p10 }, endian, ()) {
                                                                                                    Err(e) => Err(e),
                                                                                                    Ok((m11, p11)) => {
                                                                                                        match T12::spec_read(StreamView { data: s.data, pos: p11 }, endian, ()) {
                                                                                                            Err(e) => Err(e),
                                                                                                            Ok((m12, p12)) => {
                                                                                                                match T13::spec_read(StreamView { data: s.data, pos: p12 }, endian, ()) {
                                                                                                                    Err(e) => Err(e),
                                                                                                                    Ok((m13, p13)) => {
                                                                                                                        match T14::spec_read(StreamView { data: s.data, pos: p13 }, endian, ()) {
                                                                                                                            Err(e) => Err(e),
                                                                                                                            Ok((m14, p14)) => {
                                                                                                                                match T15::spec_read(StreamView { data: s.data, pos: p14 }, endian, ()) {
                                                                                                                                    Err(e) => Err(e),
                                                                                                                                    Ok((m15, p15)) => {
                                                                                                                                        match T16::spec_read(StreamView { data: s.data, pos: p15 }, endian, ()) {
                                                                                                                                            Err(e) => Err(e),
                                                                                                                                            Ok((m16, p16)) => {
                                                                                                                                                match T17::spec_read(StreamView { data: s.data, pos: p16 }, endian, ()) {
                                                                                                                                                    Err(e) => Err(e),
                                                                                                                                                    Ok((m17, p17)) => {
                                                                                                                                                        match T18::spec_read(StreamView { data: s.data, pos: p17 }, endian, ()) {
                                                                                                                                                            Err(e) => Err(e),
                                                                                                                                                            Ok((m18, p18)) => {
                                                                                                                                                                match T19::spec_read(StreamView { data: s.data, pos: p18 }, endian, ()) {
                                                                                                                                                                    Err(e) => Err(e),
                                                                                                                                                                    Ok((m19, p19)) => {
                                                                                                                                                                        match T20::spec_read(StreamView { data: s.data, pos: p19 }, endian, ()) {
                                                                                                                                                                            Err(e) => Err(e),
                                                                                                                                                                            Ok((m20, p20)) => {
                                                                                                                                                                                match T21::spec_read(StreamView { data: s.data, pos: p20 }, endian, ()) {
                                                                                                                                                                                    Err(e) => Err(e),
                                                                                                                                                                                    Ok((m21, p21)) => {
                                                                                                                                                                                        match T22::spec_read(StreamView { data: s.data, pos: p21 }, endian, ()) {
                                                                                                                                                                                            Err(e) => Err(e),
                                                                                                                                                                                            Ok((m22, p22)) => {
                                                                                                                                                                                                match T23::spec_read(StreamView { data: s.data, pos: p22 }, endian, ()) {
                                                                                                                                                                                                    Err(e) => Err(e),
                                                                                                                                                                                                    Ok((m23, p23)) => Ok(((m0, m1, m2, m3, m4, m5, m6, m7, m8, m9, m10, m11, m12, m13, m14, m15, m16, m17, m18, m19, m20, m21, m22, m23), p23)),
                                                                                                                                                                                                }
                                                                                                                                                                                            },
                                                                                                                                                                                        }
                                                                                                                                                                                    },
                                                                                                                                                                                }
                                                                                                                                                                            },
                                                                                                                                                                        }
                                                                                                                                                                    },
                                                                                                                                                                }
                                                                                                                                                            },
                                                                                                                                                        }
                                                                                                                                                    },
                                                                                                                                                }
                                                                                                                                            },
                                                                                                                                        }
                                                                                                                                    },
                                                                                                                                }
                                                                                                                            },
                                                                                                                        }
                                                                                                                    },
                                                                                                                }
                                                                                                            },
                                                                                                        }
                                                                                                    },
                                                                                                }
                                                                                            },
                                                                                        }
                                                                                    },
                                                                                }
                                                                            },
                                                                        }
                                                                    },
                                                                }
                                                            },
                                                        }
                                                    },
                                                }
                                            },
                                        }
                                    },
                                }
                            },
                        }
                    },
                }
            },
        }
    }

    open spec fn spec_after(m: (T0::Model, T1::Model, T2::Model, T3::Model, T4::Model, T5::Model, T6::Model, T7::Model, T8::Model, T9::Model, T10::Model, T11::Model, T12::Model, T13::Model, T14::Model, T15::Model, T16::Model, T17::Model, T18::Model, T19::Model, T20::Model, T21::Model, T22::Model, T23::Model), s: StreamView, endian: Endian, args: ()) -> Result<
        ((T0::Model, T1::Model, T2::Model, T3::Model, T4::Model, T5::Model, T6::Model, T7::Model, T8::Model, T9::Model, T10::Model, T11::Model, T12::Model, T13::Model, T14::Model, T15::Model, T16::Model, T17::Model, T18::Model, T19::Model, T20::Model, T21::Model, T22::Model, T23::Model), int),
        Error,
    > {
        match T0::spec_after(m.0, s, endian, ()) {
            Err(e) => Err(e),
            Ok((m0, p0)) => {
                match T1::spec_after(m.1, StreamView { data: s.data, pos: p0 }, endian, ()) {
                    Err(e) => Err(e),
                    Ok((m1, p1)) => {
                        match T2::spec_after(m.2, StreamView { data: s.data, pos: p1 }, endian, ()) {
                            Err(e) => Err(e),
                            Ok((m2, p2)) => {
                                match T3::spec_after(m.3, StreamView { data: s.data, pos: p2 }, endian, ()) {
                                    Err(e) => Err(e),
                                    Ok((m3, p3)) => {
                                        match T4::spec_after(m.4, StreamView { data: s.data, pos: p3 }, endian, ()) {
                                            Err(e) => Err(e),
                                            Ok((m4, p4)) => {
                                                match T5::spec_after(m.5, StreamView { data: s.data, pos: p4 }, endian, ()) {
                                                    Err(e) => Err(e),
                                                    Ok((m5, p5)) => {
                                                        match T6::spec_after(m.6, StreamView { data: s.data, pos: p5 }, endian, ()) {
                                                            Err(e) => Err(e),
                                                            Ok((m6, p6)) => {
                                                                match T7::spec_after(m.7, StreamView { data: s.data, pos: p6 }, endian, ()) {
                                                                    Err(e) => Err(e),
                                                                    Ok((m7, p7)) => {
                                                                        match T8::spec_after(m.8, StreamView { data: s.data, pos: p7 }, endian, ()) {
                                                                            Err(e) => Err(e),
                                                                            Ok((m8, p8)) => {
                                                                                match T9::spec_after(m.9, StreamView { data: s.data, pos: p8 }, endian, ()) {
                                                                                    Err(e) => Err(e),
                                                                                    Ok((m9, p9)) => {
                                                                                        match T10::spec_after(m.10, StreamView { data: s.data, pos: p9 }, endian, ()) {
                                                                                            Err(e) => Err(e),
                                                                                            Ok((m10, p10)) => {
                                                                                                match T11::spec_after(m.11, StreamView { data: s.data, pos: p10 }, endian, ()) {
                                                                                                    Err(e) => Err(e),
                                                                                                    Ok((m11, p11)) => {
                                                                                                        match T12::spec_after(m.12, StreamView { data: s.data, pos: p11 }, endian, ()) {
                                                                                                            Err(e) => Err(e),
                                                                                                            Ok((m12, p12)) => {
                                                                                                                match T13::spec_after(m.13, StreamView { data: s.data, pos: p12 }, endian, ()) {
                                                                                                                    Err(e) => Err(e),
                                                                                                                    Ok((m13, p13)) => {
                                                                                                                        match T14::spec_after(m.14, StreamView { data: s.data, pos: p13 }, endian, ()) {
                                                                                                                            Err(e) => Err(e),
                                                                                                                            Ok((m14, p14)) => {
                                                                                                                                match T15::spec_after(m.15, StreamView { data: s.data, pos: p14 }, endian, ()) {
                                                                                                                                    Err(e) => Err(e),
                                                                                                                                    Ok((m15, p15)) => {
                                                                                                                                        match T16::spec_after(m.16, StreamView { data: s.data, pos: p15 }, endian, ()) {
                                                                                                                                            Err(e) => Err(e),
                                                                                                                                            Ok((m16, p16)) => {
                                                                                                                                                match T17::spec_after(m.17, StreamView { data: s.data, pos: p16 }, endian, ()) {
                                                                                                                                                    Err(e) => Err(e),
                                                                                                                                                    Ok((m17, p17)) => {
                                                                                                                                                        match T18::spec_after(m.18, StreamView { data: s.data, pos: p17 }, endian, ()) {
                                                                                                                                                            Err(e) => Err(e),
                                                                                                                                                            Ok((m18, p18)) => {
                                                                                                                                                                match T19::spec_after(m.19, StreamView { data: s.data, pos: p18 }, endian, ()) {
                                                                                                                                                                    Err(e) => Err(e),
                                                                                                                                                                    Ok((m19, p19)) => {
                                                                                                                                                                        match T20::spec_after(m.20, StreamView { data: s.data, pos: p19 }, endian, ()) {
                                                                                                                                                                            Err(e) => Err(e),
                                                                                                                                                                            Ok((m20, p20)) => {
                                                                                                                                                                                match T21::spec_after(m.21, StreamView { data: s.data, pos: p20 }, endian, ()) {
                                                                                                                                                                                    Err(e) => Err(e),
                                                                                                                                                                                    Ok((m21, p21)) => {
                                                                                                                                                                                        match T22::spec_after(m.22, StreamView { data: s.data, pos: p21 }, endian, ()) {
                                                                                                                                                                                            Err(e) => Err(e),
                                                                                                                                                                                            Ok((m22, p22)) => {
                                                                                                                                                                                                match T23::spec_after(m.23, StreamView { data: s.data, pos: p22 }, endian, ()) {
                                                                                                                                                                                                    Err(e) => Err(e),
                                                                                                                                                                                                    Ok((m23, p23)) => Ok(((m0, m1, m2, m3, m4, m5, m6, m7, m8, m9, m10, m11, m12, m13, m14, m15, m16, m17, m18, m19, m20, m21, m22, m23), p23)),
                                                                                                                                                                                                }
                                                                                                                                                                                            },
                                                                                                                                                                                        }
                                                                                                                                                                                    },
                                                                                                                                                                                }
                                                                                                                                                                            },
                                                                                                                                                                        }
                                                                                                                                                                    },
                                                                                                                                                                }
                                                                                                                                                            },
                                                                                                                                                        }
                                                                                                                                                    },
                                                                                                                                                }
                                                                                                                                            },
                                                                                                                                        }
                                                                                                                                    },
                                                                                                                                }
                                                                                                                            },
                                                                                                                        }
                                                                                                                    },
                                                                                                                }
                                                                                                            },
                                                                                                        }
                                                                                                    },
                                                                                                }
                                                                                            },
                                                                                        }
                                                                                    },
                                                                                }
                                                                            },
                                                                        }
                                                                    },
                                                                }
                                                            },
                                                        }
                                                    },
                                                }
                                            },
                                        }
                                    },
                                }
                            },
                        }
                    },
                }
            },
        }
    }

    open spec fn restores_on_failure() -> bool {
        false
    }

    fn read_options(reader: &mut Cursor, options: &ReadOptions, args: ()) -> (r: BinResult<
        (T0, T1, T2, T3, T4, T5, T6, T7, T8, T9, T10, T11, T12, T13, T14, T15, T16, T17, T18, T19, T20, T21, T22, T23),
    >) {
        proof {
            assert(!Self::restores_on_failure());
        }
        let v0 = match T0::read_options(reader, options, ()) {
            Ok(v) => v,
            Err(e) => {
                return Err(e);
            },
        };
        let v1 = match T1::read_options(reader, options, ()) {
            Ok(v) => v,
            Err(e) => {
                return Err(e);
            },
        };
        let v2 = match T2::read_options(reader, options, ()) {
            Ok(v) => v,
            Err(e) => {
                return Err(e);
            },
        };
        let v3 = match T3::read_options(reader, options, ()) {
            Ok(v) => v,
            Err(e) => {
                return Err(e);
            },
        };
        let v4 = match T4::read_options(reader, options, ()) {
            Ok(v) => v,
            Err(e) => {
                return Err(e);
            },
        };
        let v5 = match T5::read_options(reader, options, ()) {
            Ok(v) => v,
            Err(e) => {
                return Err(e);
            },
        };
        let v6 = match T6::read_options(reader, options, ()) {
            Ok(v) => v,
            Err(e) => {
                return Err(e);
            },
        };
        let v7 = match T7::read_options(reader, options, ()) {
            Ok(v) => v,
            Err(e) => {
                return Err(e);
            },
        };
        let v8 = match T8::read_options(reader, options, ()) {
            Ok(v) => v,
            Err(e) => {
                return Err(e);
            },
        };
        let v9 = match T9::read_options(reader, options, ()) {
            Ok(v) => v,
            Err(e) => {
                return Err(e);
            },
        };
        let v10 = match T10::read_options(reader, options, ()) {
            Ok(v) => v,
            Err(e) => {
                return Err(e);
            },
        };
        let v11 = match T11::read_options(reader, options, ()) {
            Ok(v) => v,
            Err(e) => {
                return Err(e);
            },
        };
        let v12 = match T12::read_options(reader, options, ()) {
            Ok(v) => v,
            Err(e) => {
                return Err(e);
            },
        };
        let v13 = match T13::read_options(reader, options, ()) {
            Ok(v) => v,
            Err(e) => {
                return Err(e);
            },
        };
        let v14 = match T14::read_options(reader, options, ()) {
            Ok(v) => v,
            Err(e) => {
                return Err(e);
            },
        };
        let v15 = match T15::read_options(reader, options, ()) {
            Ok(v) => v,
            Err(e) => {
                return Err(e);
            },
        };
        let v16 = match T16::read_options(reader, options, ()) {
            Ok(v) => v,
            Err(e) => {
                return Err(e);
            },
        };
        let v17 = match T17::read_options(reader, options, ()) {
            Ok(v) => v,
            Err(e) => {
                return Err(e);
            },
        };
        let v18 = match T18::read_options(reader, options, ()) {
            Ok(v) => v,
            Err(e) => {
                return Err(e);
            },
        };
        let v19 = match T19::read_options(reader, options, ()) {
            Ok(v) => v,
            Err(e) => {
                return Err(e);
            },
        };
        let v20 = match T20::read_options(reader, options, ()) {
            Ok(v) => v,
            Err(e) => {
                return Err(e);
            },
        };
        let v21 = match T21::read_options(reader, options, ()) {
            Ok(v) => v,
            Err(e) => {
                return Err(e);
            },
        };
        let v22 = match T22::read_options(reader, options, ()) {
            Ok(v) => v,
            Err(e) => {
                return Err(e);
            },
        };
        let v23 = match T23::read_options(reader, options, ()) {
            Ok(v) => v,
            Err(e) => {
                return Err(e);
            },
        };
        Ok((v0, v1, v2, v3, v4, v5, v6, v7, v8, v9, v10, v11, v12, v13, v14, v15, v16, v17, v18, v19, v20, v21, v22, v23))
    }

    fn after_parse(self, reader: &mut Cursor, options: &ReadOptions, args: ()) -> (r: BinResult<
        (T0, T1, T2, T3, T4, T5, T6, T7, T8, T9, T10, T11, T12, T13, T14, T15, T16, T17, T18, T19, T20, T21, T22, T23),
    >) {
        let (x0, x1, x2, x3, x4, x5, x6, x7, x8, x9, x10, x11, x12, x13, x14, x15, x16, x17, x18, x19, x20, x21, x22, x23) = self;
        let v0 = match x0.after_parse(reader, options, ()) {
            Ok(v) => v,
            Err(e) => {
                return Err(e);
            },
        };
        let v1 = match x1.after_parse(reader, options, ()) {
            Ok(v) => v,
            Err(e) => {
                return Err(e);
            },
        };
        let v2 = match x2.after_parse(reader, options, ()) {
            Ok(v) => v,
            Err(e) => {
                return Err(e);
            },
        };
        let v3 = match x3.after_parse(reader, options, ()) {
            Ok(v) => v,
            Err(e) => {
                return Err(e);
            },
        };
        let v4 = match x4.after_parse(reader, options, ()) {
            Ok(v) => v,
            Err(e) => {
                return Err(e);
            },
        };
        let v5 = match x5.after_parse(reader, options, ()) {
            Ok(v) => v,
            Err(e) => {
                return Err(e);
            },
        };
        let v6 = match x6.after_parse(reader, options, ()) {
            Ok(v) => v,
            Err(e) => {
                return Err(e);
            },
        };
        let v7 = match x7.after_parse(reader, options, ()) {
            Ok(v) => v,
            Err(e) => {
                return Err(e);
            },
        };
        let v8 = match x8.after_parse(reader, options, ()) {
            Ok(v) => v,
            Err(e) => {
                return Err(e);
            },
        };
        let v9 = match x9.after_parse(reader, options, ()) {
            Ok(v) => v,
            Err(e) => {
                return Err(e);
            },
        };
        let v10 = match x10.after_parse(reader, options, ()) {
            Ok(v) => v,
            Err(e) => {
                return Err(e);
            },
        };
        let v11 = match x11.after_parse(reader, options, ()) {
            Ok(v) => v,
            Err(e) => {
                return Err(e);
            },
        };
        let v12 = match x12.after_parse(reader, options, ()) {
            Ok(v) => v,
            Err(e) => {
                return Err(e);
            },
        };
        let v13 = match x13.after_parse(reader, options, ()) {
            Ok(v) => v,
            Err(e) => {
                return Err(e);
            },
        };
        let v14 = match x14.after_parse(reader, options, ()) {
            Ok(v) => v,
            Err(e) => {
                return Err(e);
            },
        };
        let v15 = match x15.after_parse(reader, options, ()) {
            Ok(v) => v,
            Err(e) => {
                return Err(e);
            },
        };
        let v16 = match x16.after_parse(reader, options, ()) {
            Ok(v) => v,
            Err(e) => {
                return Err(e);
            },
        };
        let v17 = match x17.after_parse(reader, options, ()) {
            Ok(v) => v,
            Err(e) => {
                return Err(e);
            },
        };
        let v18 = match x18.after_parse(reader, options, ()) {
            Ok(v) => v,
            Err(e) => {
                return Err(e);
            },
        };
        let v19 = match x19.after_parse(reader, options, ()) {
            Ok(v) => v,
            Err(e) => {
                return Err(e);
            },
        };
        let v20 = match x20.after_parse(reader, options, ()) {
            Ok(v) => v,
            Err(e) => {
                return Err(e);
            },
        };
        let v21 = match x21.after_parse(reader, options, ()) {
            Ok(v) => v,
            Err(e) => {
                return Err(e);
            },
        };
        let v22 = match x22.after_parse(reader, options, ()) {
            Ok(v) => v,
            Err(e) => {
                return Err(e);
            },
        };
        let v23 = match x23.after_parse(reader, options, ()) {
            Ok(v) => v,
            Err(e) => {
                return Err(e);
            },
        };
        Ok((v0, v1, v2, v3, v4, v5, v6, v7, v8, v9, v10, v11, v12, v13, v14, v15, v16, v17, v18, v19, v20, v21, v22, v23))
    }
}

impl<T0: BinRead<Args = ()>, T1: BinRead<Args = ()>, T2: BinRead<Args = ()>, T3: BinRead<Args = ()>, T4: BinRead<Args = ()>, T5: BinRead<Args = ()>, T6: BinRead<Args = ()>, T7: BinRead<Args = ()>, T8: BinRead<Args = ()>, T9: BinRead<Args = ()>, T10: BinRead<Args = ()>, T11: BinRead<Args = ()>, T12: BinRead<Args = ()>, T13: BinRead<Args = ()>, T14: BinRead<Args = ()>, T15: BinRead<Args = ()>, T16: BinRead<Args = ()>, T17: BinRead<Args = ()>, T18: BinRead<Args = ()>, T19: BinRead<Args = ()>, T20: BinRead<Args = ()>, T21: BinRead<Args = ()>, T22: BinRead<Args = ()>, T23: BinRead<Args = ()>, T24: BinRead<Args = ()>> BinRead for (T0, T1, T2, T3, T4, T5, T6, T7, T8, T9, T10, T11, T12, T13, T14, T15, T16, T17, T18, T19, T20, T21, T22, T23, T24) {
    type Args = ();

    type Model = (T0::Model, T1::Model, T2::Model, T3::Model, T4::Model, T5::Model, T6::Model, T7::Model, T8::Model, T9::Model, T10::Model, T11::Model, T12::Model, T13::Model, T14::Model, T15::Model, T16::Model, T17::Model, T18::Model, T19::Model, T20::Model, T21::Model, T22::Model, T23::Model, T24::Model);

    open spec fn model(self) -> (T0::Model, T1::Model, T2::Model, T3::Model, T4::Model, T5::Model, T6::Model, T7::Model, T8::Model, T9::Model, T10::Model, T11::Model, T12::Model, T13::Model, T14::Model, T15::Model, T16::Model, T17::Model, T18::Model, T19::Model, T20::Model, T21::Model, T22::Model, T23::Model, T24::Model) {
        (self.0.model(), self.1.model(), self.2.model(), self.3.model(), self.4.model(), self.5.model(), self.6.model(), self.7.model(), self.8.model(), self.9.model(), self.10.model(), self.11.model(), self.12.model(), self.13.model(), self.14.model(), self.15.model(), self.16.model(), self.17.model(), self.18.model(), self.19.model(), self.20.model(), self.21.model(), self.22.model(), self.23.model(), self.24.model())
    }

    open spec fn spec_read(s: StreamView, endian: Endian, args: ()) -> Result<
        ((T0::Model, T1::Model, T2::Model, T3::Model, T4::Model, T5::Model, T6::Model, T7::Model, T8::Model, T9::Model, T10::Model, T11::Model, T12::Model, T13::Model, T14::Model, T15::Model, T16::Model, T17::Model, T18::Model, T19::Model, T20::Model, T21::Model, T22::Model, T23::Model, T24::Model), int),
        Error,
    > {
        match T0::spec_read(s, endian, ()) {
            Err(e) => Err(e),
            Ok((m0, p0)) => {
                match T1::spec_read(StreamView { data: s.data, pos: p0 }, endian, ()) {
                    Err(e) => Err(e),
                    Ok((m1, p1)) => {
                        match T2::spec_read(StreamView { data: s.data, pos: p1 }, endian, ()) {
                            Err(e) => Err(e),
                            Ok((m2, p2)) => {
                                match T3::spec_read(StreamView { data: s.data, pos: p2 }, endian, ()) {
                                    Err(e) => Err(e),
                                    Ok((m3, p3)) => {
                                        match T4::spec_read(StreamView { data: s.data, pos: p3 }, endian, ()) {
                                            Err(e) => Err(e),
                                            Ok((m4, p4)) => {
                                                match T5::spec_read(StreamView { data: s.data, pos: p4 }, endian, ()) {
                                                    Err(e) => Err(e),
                                                    Ok((m5, p5)) => {
                                                        match T6::spec_read(StreamView { data: s.data, pos: p5 }, endian, ()) {
                                                            Err(e) => Err(e),
                                                            Ok((m6, p6)) => {
                                                                match T7::spec_read(StreamView { data: s.data, pos: p6 }, endian, ()) {
                                                                    Err(e) => Err(e),
                                                                    Ok((m7, p7)) => {
                                                                        match T8::spec_read(StreamView { data: s.data, pos: p7 }, endian, ()) {
                                                                            Err(e) => Err(e),
                                                                            Ok((m8, p8)) => {
                                                                                match T9::spec_read(StreamView { data: s.data, pos: p8 }, endian, ()) {
                                                                                    Err(e) => Err(e),
                                                                                    Ok((m9, p9)) => {
                                                                                        match T10::spec_read(StreamView { data: s.data, pos: p9 }, endian, ()) {
                                                                                            Err(e) => Err(e),
                                                                                            Ok((m10, p10)) => {
                                                                                                match T11::spec_read(StreamView { data: s.data, pos: p10 }, endian, ()) {
                                                                                                    Err(e) => Err(e),
                                                                                                    Ok((m11, p11)) => {
                                                                                                        match T12::spec_read(StreamView { data: s.data, pos: p11 }, endian, ()) {
                                                                                                            Err(e) => Err(e),
                                                                                                            Ok((m12, p12)) => {
                                                                                                                match T13::spec_read(StreamView { data: s.data, pos: p12 }, endian, ()) {
                                                                                                                    Err(e) => Err(e),
                                                                                                                    Ok((m13, p13)) => {
                                                                                                                        match T14::spec_read(StreamView { data: s.data, pos: p13 }, endian, ()) {
                                                                                                                            Err(e) => Err(e),
                                                                                                                            Ok((m14, p14)) => {
                                                                                                                                match T15::spec_read(StreamView { data: s.data, pos: p14 }, endian, ()) {
                                                                                                                                    Err(e) => Err(e),
                                                                                                                                    Ok((m15, p15)) => {
                                                                                                                                        match T16::spec_read(StreamView { data: s.data, pos: p15 }, endian, ()) {
                                                                                                                                            Err(e) => Err(e),
                                                                                                                                            Ok((m16, p16)) => {
                                                                                                                                                match T17::spec_read(StreamView { data: s.data, pos: p16 }, endian, ()) {
                                                                                                                                                    Err(e) => Err(e),
                                                                                                                                                    Ok((m17, p17)) => {
                                                                                                                                                        match T18::spec_read(StreamView { data: s.data, pos: p17 }, endian, ()) {
                                                                                                                                                            Err(e) => Err(e),
                                                                                                                                                            Ok((m18, p18)) => {
                                                                                                                                                                match T19::spec_read(StreamView { data: s.data, pos: p18 }, endian, ()) {
                                                                                                                                                                    Err(e) => Err(e),
                                                                                                                                                                    Ok((m19, p19)) => {
                                                                                                                                                                        match T20::spec_read(StreamView { data: s.data, pos: p19 }, endian, ()) {
                                                                                                                                                                            Err(e) => Err(e),
                                                                                                                                                                            Ok((m20, p20)) => {
                                                                                                                                                                                match T21::spec_read(StreamView { data: s.data, pos: p20 }, endian, ()) {
                                                                                                                                                                                    Err(e) => Err(e),
                                                                                                                                                                                    Ok((m21, p21)) => {
                                                                                                                                                                                        match T22::spec_read(StreamView { data: s.data, pos: p21 }, endian, ()) {
                                                                                                                                                                                            Err(e) => Err(e),
                                                                                                                                                                                            Ok((m22, p22)) => {
                                                                                                                                                                                                match T23::spec_read(StreamView { data: s.data, pos: p22 }, endian, ()) {
                                                                                                                                                                                                    Err(e) => Err(e),
                                                                                                                                                                                                    Ok((m23, p23)) => {
                                                                                                                                                                                                        match T24::spec_read(StreamView { data: s.data, pos: p23 }, endian, ()) {
                                                                                                                                                                                                            Err(e) => Err(e),
                                                                                                                                                                                                            Ok((m24, p24)) => Ok(((m0, m1, m2, m3, m4, m5, m6, m7, m8, m9, m10, m11, m12, m13, m14, m15, m16, m17, m18, m19, m20, m21, m22, m23, m24), p24)),
                                                                                                                                                                                                        }
                                                                                                                                                                                                    },
                                                                                                                                                                                                }
                                                                                                                                                                                            },
                                                                                                                                                                                        }
                                                                                                                                                                                    },
                                                                                                                                                                                }
                                                                                                                                                                            },
                                                                                                                                                                        }
                                                                                                                                                                    },
                                                                                                                                                                }
                                                                                                                                                            },
                                                                                                                                                        }
                                                                                                                                                    },
                                                                                                                                                }
                                                                                                                                            },
                                                                                                                                        }
                                                                                                                                    },
                                                                                                                                }
                                                                                                                            },
                                                                                                                        }
                                                                                                                    },
                                                                                                                }
                                                                                                            },
                                                                                                        }
                                                                                                    },
                                                                                                }
                                                                                            },
                                                                                        }
                                                                                    },
                                                                                }
                                                                            },
                                                                        }
                                                                    },
                                                                }
                                                            },
                                                        }
                                                    },
                                                }
                                            },
                                        }
                                    },
                                }
                            },
                        }
                    },
                }
            },
        }
    }

    open spec fn spec_after(m: (T0::Model, T1::Model, T2::Model, T3::Model, T4::Model, T5::Model, T6::Model, T7::Model, T8::Model, T9::Model, T10::Model, T11::Model, T12::Model, T13::Model, T14::Model, T15::Model, T16::Model, T17::Model, T18::Model, T19::Model, T20::Model, T21::Model, T22::Model, T23::Model, T24::Model), s: StreamView, endian: Endian, args: ()) -> Result<
        ((T0::Model, T1::Model, T2::Model, T3::Model, T4::Model, T5::Model, T6::Model, T7::Model, T8::Model, T9::Model, T10::Model, T11::Model, T12::Model, T13::Model, T14::Model, T15::Model, T16::Model, T17::Model, T18::Model, T19::Model, T20::Model, T21::Model, T22::Model, T23::Model, T24::Model), int),
        Error,
    > {
        match T0::spec_after(m.0, s, endian, ()) {
            Err(e) => Err(e),
            Ok((m0, p0)) => {
                match T1::spec_after(m.1, StreamView { data: s.data, pos: p0 }, endian, ()) {
                    Err(e) => Err(e),
                    Ok((m1, p1)) => {
                        match T2::spec_after(m.2, StreamView { data: s.data, pos: p1 }, endian, ()) {
                            Err(e) => Err(e),
                            Ok((m2, p2)) => {
                                match T3::spec_after(m.3, StreamView { data: s.data, pos: p2 }, endian, ()) {
                                    Err(e) => Err(e),
                                    Ok((m3, p3)) => {
                                        match T4::spec_after(m.4, StreamView { data: s.data, pos: p3 }, endian, ()) {
                                            Err(e) => Err(e),
                                            Ok((m4, p4)) => {
                                                match T5::spec_after(m.5, StreamView { data: s.data, pos: p4 }, endian, ()) {
                                                    Err(e) => Err(e),
                                                    Ok((m5, p5)) => {
                                                        match T6::spec_after(m.6, StreamView { data: s.data, pos: p5 }, endian, ()) {
                                                            Err(e) => Err(e),
                                                            Ok((m6, p6)) => {
                                                                match T7::spec_after(m.7, StreamView { data: s.data, pos: p6 }, endian, ()) {
                                                                    Err(e) => Err(e),
                                                                    Ok((m7, p7)) => {
                                                                        match T8::spec_after(m.8, StreamView { data: s.data, pos: p7 }, endian, ()) {
                                                                            Err(e) => Err(e),
                                                                            Ok((m8, p8)) => {
                                                                                match T9::spec_after(m.9, StreamView { data: s.data, pos: p8 }, endian, ()) {
                                                                                    Err(e) => Err(e),
                                                                                    Ok((m9, p9)) => {
                                                                                        match T10::spec_after(m.10, StreamView { data: s.data, pos: p9 }, endian, ()) {
                                                                                            Err(e) => Err(e),
                                                                                            Ok((m10, p10)) => {
                                                                                                match T11::spec_after(m.11, StreamView { data: s.data, pos: p10 }, endian, ()) {
                                                                                                    Err(e) => Err(e),
                                                                                                    Ok((m11, p11)) => {
                                                                                                        match T12::spec_after(m.12, StreamView { data: s.data, pos: p11 }, endian, ()) {
                                                                                                            Err(e) => Err(e),
                                                                                                            Ok((m12, p12)) => {
                                                                                                                match T13::spec_after(m.13, StreamView { data: s.data, pos: p12 }, endian, ()) {
                                                                                                                    Err(e) => Err(e),
                                                                                                                    Ok((m13, p13)) => {
                                                                                                                        match T14::spec_after(m.14, StreamView { data: s.data, pos: p13 }, endian, ()) {
                                                                                                                            Err(e) => Err(e),
                                                                                                                            Ok((m14, p14)) => {
                                                                                                                                match T15::spec_after(m.15, StreamView { data: s.data, pos: p14 }, endian, ()) {
                                                                                                                                    Err(e) => Err(e),
                                                                                                                                    Ok((m15, p15)) => {
                                                                                                                                        match T16::spec_after(m.16, StreamView { data: s.data, pos: p15 }, endian, ()) {
                                                                                                                                            Err(e) => Err(e),
                                                                                                                                            Ok((m16, p16)) => {
                                                                                                                                                match T17::spec_after(m.17, StreamView { data: s.data, pos: p16 }, endian, ()) {
                                                                                                                                                    Err(e) => Err(e),
                                                                                                                                                    Ok((m17, p17)) => {
                                                                                                                                                        match T18::spec_after(m.18, StreamView { data: s.data, pos: p17 }, endian, ()) {
                                                                                                                                                            Err(e) => Err(e),
                                                                                                                                                            Ok((m18, p18)) => {
                                                                                                                                                                match T19::spec_after(m.19, StreamView { data: s.data, pos: p18 }, endian, ()) {
                                                                                                                                                                    Err(e) => Err(e),
                                                                                                                                                                    Ok((m19, p19)) => {
                                                                                                                                                                        match T20::spec_after(m.20, StreamView { data: s.data, pos: p19 }, endian, ()) {
                                                                                                                                                                            Err(e) => Err(e),
                                                                                                                                                                            Ok((m20, p20)) => {
                                                                                                                                                                                match T21::spec_after(m.21, StreamView { data: s.data, pos: p20 }, endian, ()) {
                                                                                                                                                                                    Err(e) => Err(e),
                                                                                                                                                                                    Ok((m21, p21)) => {
                                                                                                                                                                                        match T22::spec_after(m.22, StreamView { data: s.data, pos: p21 }, endian, ()) {
                                                                                                                                                                                            Err(e) => Err(e),
                                                                                                                                                                                            Ok((m22, p22)) => {
                                                                                                                                                                                                match T23::spec_after(m.23, StreamView { data: s.data, pos: p22 }, endian, ()) {
                                                                                                                                                                                                    Err(e) => Err(e),
                                                                                                                                                                                                    Ok((m23, p23)) => {
                                                                                                                                                                                                        match T24::spec_after(m.24, StreamView { data: s.data, pos: p23 }, endian, ()) {
                                                                                                                                                                                                            Err(e) => Err(e),
                                                                                                                                                                                                            Ok((m24, p24)) => Ok(((m0, m1, m2, m3, m4, m5, m6, m7, m8, m9, m10, m11, m12, m13, m14, m15, m16, m17, m18, m19, m20, m21, m22, m23, m24), p24)),
                                                                                                                                                                                                        }
                                                                                                                                                                                                    },
                                                                                                                                                                                                }
                                                                                                                                                                                            },
                                                                                                                                                                                        }
                                                                                                                                                                                    },
                                                                                                                                                                                }
                                                                                                                                                                            },
                                                                                                                                                                        }
                                                                                                                                                                    },
                                                                                                                                                                }
                                                                                                                                                            },
                                                                                                                                                        }
                                                                                                                                                    },
                                                                                                                                                }
                                                                                                                                            },
                                                                                                                                        }
                                                                                                                                    },
                                                                                                                                }
                                                                                                                            },
                                                                                                                        }
                                                                                                                    },
                                                                                                                }
                                                                                                            },
                                                                                                        }
                                                                                                    },
                                                                                                }
                                                                                            },
                                                                                        }
                                                                                    },
                                                                                }
                                                                            },
                                                                        }
                                                                    },
                                                                }
                                                            },
                                                        }
                                                    },
                                                }
                                            },
                                        }
                                    },
                                }
                            },
                        }
                    },
                }
            },
        }
    }

    open spec fn restores_on_failure() -> bool {
        false
    }

    fn read_options(reader: &mut Cursor, options: &ReadOptions, args: ()) -> (r: BinResult<
        (T0, T1, T2, T3, T4, T5, T6, T7, T8, T9, T10, T11, T12, T13, T14, T15, T16, T17, T18, T19, T20, T21, T22, T23, T24),
    >) {
        proof {
            assert(!Self::restores_on_failure());
        }
        let v0 = match T0::read_options(reader, options, ()) {
            Ok(v) => v,
            Err(e) => {
                return Err(e);
            },
        };
        let v1 = match T1::read_options(reader, options, ()) {
            Ok(v) => v,
            Err(e) => {
                return Err(e);
            },
        };
        let v2 = match T2::read_options(reader, options, ()) {
            Ok(v) => v,
            Err(e) => {
                return Err(e);
            },
        };
        let v3 = match T3::read_options(reader, options, ()) {
            Ok(v) => v,
            Err(e) => {
                return Err(e);
            },
        };
        let v4 = match T4::read_options(reader, options, ()) {
            Ok(v) => v,
            Err(e) => {
                return Err(e);
            },
        };
        let v5 = match T5::read_options(reader, options, ()) {
            Ok(v) => v,
            Err(e) => {
                return Err(e);
            },
        };
        let v6 = match T6::read_options(reader, options, ()) {
            Ok(v) => v,
            Err(e) => {
                return Err(e);
            },
        };
        let v7 = match T7::read_options(reader, options, ()) {
            Ok(v) => v,
            Err(e) => {
                return Err(e);
            },
        };
        let v8 = match T8::read_options(reader, options, ()) {
            Ok(v) => v,
            Err(e) => {
                return Err(e);
            },
        };
        let v9 = match T9::read_options(reader, options, ()) {
            Ok(v) => v,
            Err(e) => {
                return Err(e);
            },
        };
        let v10 = match T10::read_options(reader, options, ()) {
            Ok(v) => v,
            Err(e) => {
                return Err(e);
            },
        };
        let v11 = match T11::read_options(reader, options, ()) {
            Ok(v) => v,
            Err(e) => {
                return Err(e);
            },
        };
        let v12 = match T12::read_options(reader, options, ()) {
            Ok(v) => v,
            Err(e) => {
                return Err(e);
            },
        };
        let v13 = match T13::read_options(reader, options, ()) {
            Ok(v) => v,
            Err(e) => {
                return Err(e);
            },
        };
        let v14 = match T14::read_options(reader, options, ()) {
            Ok(v) => v,
            Err(e) => {
                return Err(e);
            },
        };
        let v15 = match T15::read_options(reader, options, ()) {
            Ok(v) => v,
            Err(e) => {
                return Err(e);
            },
        };
        let v16 = match T16::read_options(reader, options, ()) {
            Ok(v) => v,
            Err(e) => {
                return Err(e);
            },
        };
        let v17 = match T17::read_options(reader, options, ()) {
            Ok(v) => v,
            Err(e) => {
                return Err(e);
            },
        };
        let v18 = match T18::read_options(reader, options, ()) {
            Ok(v) => v,
            Err(e) => {
                return Err(e);
            },
        };
        let v19 = match T19::read_options(reader, options, ()) {
            Ok(v) => v,
            Err(e) => {
                return Err(e);
            },
        };
        let v20 = match T20::read_options(reader, options, ()) {
            Ok(v) => v,
            Err(e) => {
                return Err(e);
            },
        };
        let v21 = match T21::read_options(reader, options, ()) {
            Ok(v) => v,
            Err(e) => {
                return Err(e);
            },
        };
        let v22 = match T22::read_options(reader, options, ()) {
            Ok(v) => v,
            Err(e) => {
                return Err(e);
            },
        };
        let v23 = match T23::read_options(reader, options, ()) {
            Ok(v) => v,
            Err(e) => {
                return Err(e);
            },
        };
        let v24 = match T24::read_options(reader, options, ()) {
            Ok(v) => v,
            Err(e) => {
                return Err(e);
            },
        };
        Ok((v0, v1, v2, v3, v4, v5, v6, v7, v8, v9, v10, v11, v12, v13, v14, v15, v16, v17, v18, v19, v20, v21, v22, v23, v24))
    }

    fn after_parse(self, reader: &mut Cursor, options: &ReadOptions, args: ()) -> (r: BinResult<
        (T0, T1, T2, T3, T4, T5, T6, T7, T8, T9, T10, T11, T12, T13, T14, T15, T16, T17, T18, T19, T20, T21, T22, T23, T24),
    >) {
        let (x0, x1, x2, x3, x4, x5, x6, x7, x8, x9, x10, x11, x12, x13, x14, x15, x16, x17, x18, x19, x20, x21, x22, x23, x24) = self;
        let v0 = match x0.after_parse(reader, options, ()) {
            Ok(v) => v,
            Err(e) => {
                return Err(e);
            },
        };
        let v1 = match x1.after_parse(reader, options, ()) {
            Ok(v) => v,
            Err(e) => {
                return Err(e);
            },
        };
        let v2 = match x2.after_parse(reader, options, ()) {
            Ok(v) => v,
            Err(e) => {
                return Err(e);
            },
        };
        let v3 = match x3.after_parse(reader, options, ()) {
            Ok(v) => v,
            Err(e) => {
                return Err(e);
            },
        };
        let v4 = match x4.after_parse(reader, options, ()) {
            Ok(v) => v,
            Err(e) => {
                return Err(e);
            },
        };
        let v5 = match x5.after_parse(reader, options, ()) {
            Ok(v) => v,
            Err(e) => {
                return Err(e);
            },
        };
        let v6 = match x6.after_parse(reader, options, ()) {
            Ok(v) => v,
            Err(e) => {
                return Err(e);
            },
        };
        let v7 = match x7.after_parse(reader, options, ()) {
            Ok(v) => v,
            Err(e) => {
                return Err(e);
            },
        };
        let v8 = match x8.after_parse(reader, options, ()) {
            Ok(v) => v,
            Err(e) => {
                return Err(e);
            },
        };
        let v9 = match x9.after_parse(reader, options, ()) {
            Ok(v) => v,
            Err(e) => {
                return Err(e);
            },
        };
        let v10 = match x10.after_parse(reader, options, ()) {
            Ok(v) => v,
            Err(e) => {
                return Err(e);
            },
        };
        let v11 = match x11.after_parse(reader, options, ()) {
            Ok(v) => v,
            Err(e) => {
                return Err(e);
            },
        };
        let v12 = match x12.after_parse(reader, options, ()) {
            Ok(v) => v,
            Err(e) => {
                return Err(e);
            },
        };
        let v13 = match x13.after_parse(reader, options, ()) {
            Ok(v) => v,
            Err(e) => {
                return Err(e);
            },
        };
        let v14 = match x14.after_parse(reader, options, ()) {
            Ok(v) => v,
            Err(e) => {
                return Err(e);
            },
        };
        let v15 = match x15.after_parse(reader, options, ()) {
            Ok(v) => v,
            Err(e) => {
                return Err(e);
            },
        };
        let v16 = match x16.after_parse(reader, options, ()) {
            Ok(v) => v,
            Err(e) => {
                return Err(e);
            },
        };
        let v17 = match x17.after_parse(reader, options, ()) {
            Ok(v) => v,
            Err(e) => {
                return Err(e);
            },
        };
        let v18 = match x18.after_parse(reader, options, ()) {
            Ok(v) => v,
            Err(e) => {
                return Err(e);
            },
        };
        let v19 = match x19.after_parse(reader, options, ()) {
            Ok(v) => v,
            Err(e) => {
                return Err(e);
            },
        };
        let v20 = match x20.after_parse(reader, options, ()) {
            Ok(v) => v,
            Err(e) => {
                return Err(e);
            },
        };
        let v21 = match x21.after_parse(reader, options, ()) {
            Ok(v) => v,
            Err(e) => {
                return Err(e);
            },
        };
        let v22 = match x22.after_parse(reader, options, ()) {
            Ok(v) => v,
            Err(e) => {
                return Err(e);
            },
        };
        let v23 = match x23.after_parse(reader, options, ()) {
            Ok(v) => v,
            Err(e) => {
                return Err(e);
            },
        };
        let v24 = match x24.after_parse(reader, options, ()) {
            Ok(v) => v,
            Err(e) => {
                return Err(e);
            },
        };
        Ok((v0, v1, v2, v3, v4, v5, v6, v7, v8, v9, v10, v11, v12, v13, v14, v15, v16, v17, v18, v19, v20, v21, v22, v23, v24))
    }
}

impl<T0: BinRead<Args = ()>, T1: BinRead<Args = ()>, T2: BinRead<Args = ()>, T3: BinRead<Args = ()>, T4: BinRead<Args = ()>, T5: BinRead<Args = ()>, T6: BinRead<Args = ()>, T7: BinRead<Args = ()>, T8: BinRead<Args = ()>, T9: BinRead<Args = ()>, T10: BinRead<Args = ()>, T11: BinRead<Args = ()>, T12: BinRead<Args = ()>, T13: BinRead<Args = ()>, T14: BinRead<Args = ()>, T15: BinRead<Args = ()>, T16: BinRead<Args = ()>, T17: BinRead<Args = ()>, T18: BinRead<Args = ()>, T19: BinRead<Args = ()>, T20: BinRead<Args = ()>, T21: BinRead<Args = ()>, T22: BinRead<Args = ()>, T23: BinRead<Args = ()>, T24: BinRead<Args = ()>, T25: BinRead<Args = ()>> BinRead for (T0, T1, T2, T3, T4, T5, T6, T7, T8, T9, T10, T11, T12, T13, T14, T15, T16, T17, T18, T19, T20, T21, T22, T23, T24, T25) {
    type Args = ();

    type Model = (T0::Model, T1::Model, T2::Model, T3::Model, T4::Model, T5::Model, T6::Model, T7::Model, T8::Model, T9::Model, T10::Model, T11::Model, T12::Model, T13::Model, T14::Model, T15::Model, T16::Model, T17::Model, T18::Model, T19::Model, T20::Model, T21::Model, T22::Model, T23::Model, T24::Model, T25::Model);

    open spec fn model(self) -> (T0::Model, T1::Model, T2::Model, T3::Model, T4::Model, T5::Model, T6::Model, T7::Model, T8::Model, T9::Model, T10::Model, T11::Model, T12::Model, T13::Model, T14::Model, T15::Model, T16::Model, T17::Model, T18::Model, T19::Model, T20::Model, T21::Model, T22::Model, T23::Model, T24::Model, T25::Model) {
        (self.0.model(), self.1.model(), self.2.model(), self.3.model(), self.4.model(), self.5.model(), self.6.model(), self.7.model(), self.8.model(), self.9.model(), self.10.model(), self.11.model(), self.12.model(), self.13.model(), self.14.model(), self.15.model(), self.16.model(), self.17.model(), self.18.model(), self.19.model(), self.20.model(), self.21.model(), self.22.model(), self.23.model(), self.24.model(), self.25.model())
    }

    open spec fn spec_read(s: StreamView, endian: Endian, args: ()) -> Result<
        ((T0::Model, T1::Model, T2::Model, T3::Model, T4::Model, T5::Model, T6::Model, T7::Model, T8::Model, T9::Model, T10::Model, T11::Model, T12::Model, T13::Model, T14::Model, T15::Model, T16::Model, T17::Model, T18::Model, T19::Model, T20::Model, T21::Model, T22::Model, T23::Model, T24::Model, T25::Model), int),
        Error,
    > {
        match T0::spec_read(s, endian, ()) {
            Err(e) => Err(e),
            Ok((m0, p0)) => {
                match T1::spec_read(StreamView { data: s.data, pos: p0 }, endian, ()) {
                    Err(e) => Err(e),
                    Ok((m1, p1)) => {
                        match T2::spec_read(StreamView { data: s.data, pos: p1 }, endian, ()) {
                            Err(e) => Err(e),
                            Ok((m2, p2)) => {
                                match T3::spec_read(StreamView { data: s.data, pos: p2 }, endian, ()) {
                                    Err(e) => Err(e),
                                    Ok((m3, p3)) => {
                                        match T4::spec_read(StreamView { data: s.data, pos: p3 }, endian, ()) {
                                            Err(e) => Err(e),
                                            Ok((m4, p4)) => {
                                                match T5::spec_read(StreamView { data: s.data, pos: p4 }, endian, ()) {
                                                    Err(e) => Err(e),
                                                    Ok((m5, p5)) => {
                                                        match T6::spec_read(StreamView { data: s.data, pos: p5 }, endian, ()) {
                                                            Err(e) => Err(e),
                                                            Ok((m6, p6)) => {
                                                                match T7::spec_read(StreamView { data: s.data, pos: p6 }, endian, ()) {
                                                                    Err(e) => Err(e),
                                                                    Ok((m7, p7)) => {
                                                                        match T8::spec_read(StreamView { data: s.data, pos: p7 }, endian, ()) {
                                                                            Err(e) => Err(e),
                                                                            Ok((m8, p8)) => {
                                                                                match T9::spec_read(StreamView { data: s.data, pos: p8 }, endian, ()) {
                                                                                    Err(e) => Err(e),
                                                                                    Ok((m9, p9)) => {
                                                                                        match T10::spec_read(StreamView { data: s.data, pos: p9 }, endian, ()) {
                                                                                            Err(e) => Err(e),
                                                                                            Ok((m10, p10)) => {
                                                                                                match T11::spec_read(StreamView { data: s.data, pos: p10 }, endian, ()) {
                                                                                                    Err(e) => Err(e),
                                                                                                    Ok((m11, p11)) => {
                                                                                                        match T12::spec_read(StreamView { data: s.data, pos: p11 }, endian, ()) {
                                                                                                            Err(e) => Err(e),
                                                                                                            Ok((m12, p12)) => {
                                                                                                                match T13::spec_read(StreamView { data: s.data, pos: p12 }, endian, ()) {
                                                                                                                    Err(e) => Err(e),
                                                                                                                    Ok((m13, p13)) => {
                                                                                                                        match T14::spec_read(StreamView { data: s.data, pos: p13 }, endian, ()) {
                                                                                                                            Err(e) => Err(e),
                                                                                                                            Ok((m14, p14)) => {
                                                                                                                                match T15::spec_read(StreamView { data: s.data, pos: p14 }, endian, ()) {
                                                                                                                                    Err(e) => Err(e),
                                                                                                                                    Ok((m15, p15)) => {
                                                                                                                                        match T16::spec_read(StreamView { data: s.data, pos: p15 }, endian, ()) {
                                                                                                                                            Err(e) => Err(e),
                                                                                                                                            Ok((m16, p16)) => {
                                                                                                                                                match T17::spec_read(StreamView { data: s.data, pos: p16 }, endian, ()) {
                                                                                                                                                    Err(e) => Err(e),
                                                                                                                                                    Ok((m17, p17)) => {
                                                                                                                                                        match T18::spec_read(StreamView { data: s.data, pos: p17 }, endian, ()) {
                                                                                                                                                            Err(e) => Err(e),
                                                                                                                                                            Ok((m18, p18)) => {
                                                                                                                                                                match T19::spec_read(StreamView { data: s.data, pos: p18 }, endian, ()) {
                                                                                                                                                                    Err(e) => Err(e),
                                                                                                                                                                    Ok((m19, p19)) => {
                                                                                                                                                                        match T20::spec_read(StreamView { data: s.data, pos: p19 }, endian, ()) {
                                                                                                                                                                            Err(e) => Err(e),
                                                                                                                                                                            Ok((m20, p20)) => {
                                                                                                                                                                                match T21::spec_read(StreamView { data: s.data, pos: p20 }, endian, ()) {
                                                                                                                                                                                    Err(e) => Err(e),
                                                                                                                                                                                    Ok((m21, p21)) => {
                                                                                                                                                                                        match T22::spec_read(StreamView { data: s.data, pos: p21 }, endian, ()) {
                                                                                                                                                                                            Err(e) => Err(e),
                                                                                                                                                                                            Ok((m22, p22)) => {
                                                                                                                                                                                                match T23::spec_read(StreamView { data: s.data, pos: p22 }, endian, ()) {
                                                                                                                                                                                                    Err(e) => Err(e),
                                                                                                                                                                                                    Ok((m23, p23)) => {
                                                                                                                                                                                                        match T24::spec_read(StreamView { data: s.data, pos: p23 }, endian, ()) {
                                                                                                                                                                                                            Err(e) => Err(e),
                                                                                                                                                                                                            Ok((m24, p24)) => {
                                                                                                                                                                                                                match T25::spec_read(StreamView { data: s.data, pos: p24 }, endian, ()) {
                                                                                                                                                                                                                    Err(e) => Err(e),
                                                                                                                                                                                                                    Ok((m25, p25)) => Ok(((m0, m1, m2, m3, m4, m5, m6, m7, m8, m9, m10, m11, m12, m13, m14, m15, m16, m17, m18, m19, m20, m21, m22, m23, m24, m25), p25)),
                                                                                                                                                                                                                }
                                                                                                                                                                                                            },
                                                                                                                                                                                                        }
                                                                                                                                                                                                    },
                                                                                                                                                                                                }
                                                                                                                                                                                            },
                                                                                                                                                                                        }
                                                                                                                                                                                    },
                                                                                                                                                                                }
                                                                                                                                                                            },
                                                                                                                                                                        }
                                                                                                                                                                    },
                                                                                                                                                                }
                                                                                                                                                            },
                                                                                                                                                        }
                                                                                                                                                    },
                                                                                                                                                }
                                                                                                                                            },
                                                                                                                                        }
                                                                                                                                    },
                                                                                                                                }
                                                                                                                            },
                                                                                                                        }
                                                                                                                    },
                                                                                                                }
                                                                                                            },
                                                                                                        }
                                                                                                    },
                                                                                                }
                                                                                            },
                                                                                        }
                                                                                    },
                                                                                }
                                                                            },
                                                                        }
                                                                    },
                                                                }
                                                            },
                                                        }
                                                    },
                                                }
                                            },
                                        }
                                    },
                                }
                            },
                        }
                    },
                }
            },
        }
    }

    open spec fn spec_after(m: (T0::Model, T1::Model, T2::Model, T3::Model, T4::Model, T5::Model, T6::Model, T7::Model, T8::Model, T9::Model, T10::Model, T11::Model, T12::Model, T13::Model, T14::Model, T15::Model, T16::Model, T17::Model, T18::Model, T19::Model, T20::Model, T21::Model, T22::Model, T23::Model, T24::Model, T25::Model), s: StreamView, endian: Endian, args: ()) -> Result<
        ((T0::Model, T1::Model, T2::Model, T3::Model, T4::Model, T5::Model, T6::Model, T7::Model, T8::Model, T9::Model, T10::Model, T11::Model, T12::Model, T13::Model, T14::Model, T15::Model, T16::Model, T17::Model, T18::Model, T19::Model, T20::Model, T21::Model, T22::Model, T23::Model, T24::Model, T25::Model), int),
        Error,
    > {
        match T0::spec_after(m.0, s, endian, ()) {
            Err(e) => Err(e),
            Ok((m0, p0)) => {
                match T1::spec_after(m.1, StreamView { data: s.data, pos: p0 }, endian, ()) {
                    Err(e) => Err(e),
                    Ok((m1, p1)) => {
                        match T2::spec_after(m.2, StreamView { data: s.data, pos: p1 }, endian, ()) {
                            Err(e) => Err(e),
                            Ok((m2, p2)) => {
                                match T3::spec_after(m.3, StreamView { data: s.data, pos: p2 }, endian, ()) {
                                    Err(e) => Err(e),
                                    Ok((m3, p3)) => {
                                        match T4::spec_after(m.4, StreamView { data: s.data, pos: p3 }, endian, ()) {
                                            Err(e) => Err(e),
                                            Ok((m4, p4)) => {
                                                match T5::spec_after(m.5, StreamView { data: s.data, pos: p4 }, endian, ()) {
                                                    Err(e) => Err(e),
                                                    Ok((m5, p5)) => {
                                                        match T6::spec_after(m.6, StreamView { data: s.data, pos: p5 }, endian, ()) {
                                                            Err(e) => Err(e),
                                                            Ok((m6, p6)) => {
                                                                match T7::spec_after(m.7, StreamView { data: s.data, pos: p6 }, endian, ()) {
                                                                    Err(e) => Err(e),
                                                                    Ok((m7, p7)) => {
                                                                        match T8::spec_after(m.8, StreamView { data: s.data, pos: p7 }, endian, ()) {
                                                                            Err(e) => Err(e),
                                                                            Ok((m8, p8)) => {
                                                                                match T9::spec_after(m.9, StreamView { data: s.data, pos: p8 }, endian, ()) {
                                                                                    Err(e) => Err(e),
                                                                                    Ok((m9, p9)) => {
                                                                                        match T10::spec_after(m.10, StreamView { data: s.data, pos: p9 }, endian, ()) {
                                                                                            Err(e) => Err(e),
                                                                                            Ok((m10, p10)) => {
                                                                                                match T11::spec_after(m.11, StreamView { data: s.data, pos: p10 }, endian, ()) {
                                                                                                    Err(e) => Err(e),
                                                                                                    Ok((m11, p11)) => {
                                                                                                        match T12::spec_after(m.12, StreamView { data: s.data, pos: p11 }, endian, ()) {
                                                                                                            Err(e) => Err(e),
                                                                                                            Ok((m12, p12)) => {
                                                                                                                match T13::spec_after(m.13, StreamView { data: s.data, pos: p12 }, endian, ()) {
                                                                                                                    Err(e) => Err(e),
                                                                                                                    Ok((m13, p13)) => {
                                                                                                                        match T14::spec_after(m.14, StreamView { data: s.data, pos: p13 }, endian, ()) {
                                                                                                                            Err(e) => Err(e),
                                                                                                                            Ok((m14, p14)) => {
                                                                                                                                match T15::spec_after(m.15, StreamView { data: s.data, pos: p14 }, endian, ()) {
                                                                                                                                    Err(e) => Err(e),
                                                                                                                                    Ok((m15, p15)) => {
                                                                                                                                        match T16::spec_after(m.16, StreamView { data: s.data, pos: p15 }, endian, ()) {
                                                                                                                                            Err(e) => Err(e),
                                                                                                                                            Ok((m16, p16)) => {
                                                                                                                                                match T17::spec_after(m.17, StreamView { data: s.data, pos: p16 }, endian, ()) {
                                                                                                                                                    Err(e) => Err(e),
                                                                                                                                                    Ok((m17, p17)) => {
                                                                                                                                                        match T18::spec_after(m.18, StreamView { data: s.data, pos: p17 }, endian, ()) {
                                                                                                                                                            Err(e) => Err(e),
                                                                                                                                                            Ok((m18, p18)) => {
                                                                                                                                                                match T19::spec_after(m.19, StreamView { data: s.data, pos: p18 }, endian, ()) {
                                                                                                                                                                    Err(e) => Err(e),
                                                                                                                                                                    Ok((m19, p19)) => {
                                                                                                                                                                        match T20::spec_after(m.20, StreamView { data: s.data, pos: p19 }, endian, ()) {
                                                                                                                                                                            Err(e) => Err(e),
                                                                                                                                                                            Ok((m20, p20)) => {
                                                                                                                                                                                match T21::spec_after(m.21, StreamView { data: s.data, pos: p20 }, endian, ()) {
                                                                                                                                                                                    Err(e) => Err(e),
                                                                                                                                                                                    Ok((m21, p21)) => {
                                                                                                                                                                                        match T22::spec_after(m.22, StreamView { data: s.data, pos: p21 }, endian, ()) {
                                                                                                                                                                                            Err(e) => Err(e),
                                                                                                                                                                                            Ok((m22, p22)) => {
                                                                                                                                                                                                match T23::spec_after(m.23, StreamView { data: s.data, pos: p22 }, endian, ()) {
                                                                                                                                                                                                    Err(e) => Err(e),
                                                                                                                                                                                                    Ok((m23, p23)) => {
                                                                                                                                                                                                        match T24::spec_after(m.24, StreamView { data: s.data, pos: p23 }, endian, ()) {
                                                                                                                                                                                                            Err(e) => Err(e),
                                                                                                                                                                                                            Ok((m24, p24)) => {
                                                                                                                                                                                                                match T25::spec_after(m.25, StreamView { data: s.data, pos: p24 }, endian, ()) {
                                                                                                                                                                                                                    Err(e) => Err(e),
                                                                                                                                                                                                                    Ok((m25, p25)) => Ok(((m0, m1, m2, m3, m4, m5, m6, m7, m8, m9, m10, m11, m12, m13, m14, m15, m16, m17, m18, m19, m20, m21, m22, m23, m24, m25), p25)),
                                                                                                                                                                                                                }
                                                                                                                                                                                                            },
                                                                                                                                                                                                        }
                                                                                                                                                                                                    },
                                                                                                                                                                                                }
                                                                                                                                                                                            },
                                                                                                                                                                                        }
                                                                                                                                                                                    },
                                                                                                                                                                                }
                                                                                                                                                                            },
                                                                                                                                                                        }
                                                                                                                                                                    },
                                                                                                                                                                }
                                                                                                                                                            },
                                                                                                                                                        }
                                                                                                                                                    },
                                                                                                                                                }
                                                                                                                                            },
                                                                                                                                        }
                                                                                                                                    },
                                                                                                                                }
                                                                                                                            },
                                                                                                                        }
                                                                                                                    },
                                                                                                                }
                                                                                                            },
                                                                                                        }
                                                                                                    },
                                                                                                }
                                                                                            },
                                                                                        }
                                                                                    },
                                                                                }
                                                                            },
                                                                        }
                                                                    },
                                                                }
                                                            },
                                                        }
                                                    },
                                                }
                                            },
                                        }
                                    },
                                }
                            },
                        }
                    },
                }
            },
        }
    }

    open spec fn restores_on_failure() -> bool {
        false
    }

    fn read_options(reader: &mut Cursor, options: &ReadOptions, args: ()) -> (r: BinResult<
        (T0, T1, T2, T3, T4, T5, T6, T7, T8, T9, T10, T11, T12, T13, T14, T15, T16, T17, T18, T19, T20, T21, T22, T23, T24, T25),
    >) {
        proof {
            assert(!Self::restores_on_failure());
        }
        let v0 = match T0::read_options(reader, options, ()) {
            Ok(v) => v,
            Err(e) => {
                return Err(e);
            },
        };
        let v1 = match T1::read_options(reader, options, ()) {
            Ok(v) => v,
            Err(e) => {
                return Err(e);
            },
        };
        let v2 = match T2::read_options(reader, options, ()) {
            Ok(v) => v,
            Err(e) => {
                return Err(e);
            },
        };
        let v3 = match T3::read_options(reader, options, ()) {
            Ok(v) => v,
            Err(e) => {
                return Err(e);
            },
        };
        let v4 = match T4::read_options(reader, options, ()) {
            Ok(v) => v,
            Err(e) => {
                return Err(e);
            },
        };
        let v5 = match T5::read_options(reader, options, ()) {
            Ok(v) => v,
            Err(e) => {
                return Err(e);
            },
        };
        let v6 = match T6::read_options(reader, options, ()) {
            Ok(v) => v,
            Err(e) => {
                return Err(e);
            },
        };
        let v7 = match T7::read_options(reader, options, ()) {
            Ok(v) => v,
            Err(e) => {
                return Err(e);
            },
        };
        let v8 = match T8::read_options(reader, options, ()) {
            Ok(v) => v,
            Err(e) => {
                return Err(e);
            },
        };
        let v9 = match T9::read_options(reader, options, ()) {
            Ok(v) => v,
            Err(e) => {
                return Err(e);
            },
        };
        let v10 = match T10::read_options(reader, options, ()) {
            Ok(v) => v,
            Err(e) => {
                return Err(e);
            },
        };
        let v11 = match T11::read_options(reader, options, ()) {
            Ok(v) => v,
            Err(e) => {
                return Err(e);
            },
        };
        let v12 = match T12::read_options(reader, options, ()) {
            Ok(v) => v,
            Err(e) => {
                return Err(e);
            },
        };
        let v13 = match T13::read_options(reader, options, ()) {
            Ok(v) => v,
            Err(e) => {
                return Err(e);
            },
        };
        let v14 = match T14::read_options(reader, options, ()) {
            Ok(v) => v,
            Err(e) => {
                return Err(e);
            },
        };
        let v15 = match T15::read_options(reader, options, ()) {
            Ok(v) => v,
            Err(e) => {
                return Err(e);
            },
        };
        let v16 = match T16::read_options(reader, options, ()) {
            Ok(v) => v,
            Err(e) => {
                return Err(e);
            },
        };
        let v17 = match T17::read_options(reader, options, ()) {
            Ok(v) => v,
            Err(e) => {
                return Err(e);
            },
        };
        let v18 = match T18::read_options(reader, options, ()) {
            Ok(v) => v,
            Err(e) => {
                return Err(e);
            },
        };
        let v19 = match T19::read_options(reader, options, ()) {
            Ok(v) => v,
            Err(e) => {
                return Err(e);
            },
        };
        let v20 = match T20::read_options(reader, options, ()) {
            Ok(v) => v,
            Err(e) => {
                return Err(e);
            },
        };
        let v21 = match T21::read_options(reader, options, ()) {
            Ok(v) => v,
            Err(e) => {
                return Err(e);
            },
        };
        let v22 = match T22::read_options(reader, options, ()) {
            Ok(v) => v,
            Err(e) => {
                return Err(e);
            },
        };
        let v23 = match T23::read_options(reader, options, ()) {
            Ok(v) => v,
            Err(e) => {
                return Err(e);
            },
        };
        let v24 = match T24::read_options(reader, options, ()) {
            Ok(v) => v,
            Err(e) => {
                return Err(e);
            },
        };
        let v25 = match T25::read_options(reader, options, ()) {
            Ok(v) => v,
            Err(e) => {
                return Err(e);
            },
        };
        Ok((v0, v1, v2, v3, v4, v5, v6, v7, v8, v9, v10, v11, v12, v13, v14, v15, v16, v17, v18, v19, v20, v21, v22, v23, v24, v25))
    }

    fn after_parse(self, reader: &mut Cursor, options: &ReadOptions, args: ()) -> (r: BinResult<
        (T0, T1, T2, T3, T4, T5, T6, T7, T8, T9, T10, T11, T12, T13, T14, T15, T16, T17, T18, T19, T20, T21, T22, T23, T24, T25),
    >) {
        let (x0, x1, x2, x3, x4, x5, x6, x7, x8, x9, x10, x11, x12, x13, x14, x15, x16, x17, x18, x19, x20, x21, x22, x23, x24, x25) = self;
        let v0 = match x0.after_parse(reader, options, ()) {
            Ok(v) => v,
            Err(e) => {
                return Err(e);
            },
        };
        let v1 = match x1.after_parse(reader, options, ()) {
            Ok(v) => v,
            Err(e) => {
                return Err(e);
            },
        };
        let v2 = match x2.after_parse(reader, options, ()) {
            Ok(v) => v,
            Err(e) => {
                return Err(e);
            },
        };
        let v3 = match x3.after_parse(reader, options, ()) {
            Ok(v) => v,
            Err(e) => {
                return Err(e);
            },
        };
        let v4 = match x4.after_parse(reader, options, ()) {
            Ok(v) => v,
            Err(e) => {
                return Err(e);
            },
        };
        let v5 = match x5.after_parse(reader, options, ()) {
            Ok(v) => v,
            Err(e) => {
                return Err(e);
            },
        };
        let v6 = match x6.after_parse(reader, options, ()) {
            Ok(v) => v,
            Err(e) => {
                return Err(e);
            },
        };
        let v7 = match x7.after_parse(reader, options, ()) {
            Ok(v) => v,
            Err(e) => {
                return Err(e);
            },
        };
        let v8 = match x8.after_parse(reader, options, ()) {
            Ok(v) => v,
            Err(e) => {
                return Err(e);
            },
        };
        let v9 = match x9.after_parse(reader, options, ()) {
            Ok(v) => v,
            Err(e) => {
                return Err(e);
            },
        };
        let v10 = match x10.after_parse(reader, options, ()) {
            Ok(v) => v,
            Err(e) => {
                return Err(e);
            },
        };
        let v11 = match x11.after_parse(reader, options, ()) {
            Ok(v) => v,
            Err(e) => {
                return Err(e);
            },
        };
        let v12 = match x12.after_parse(reader, options, ()) {
            Ok(v) => v,
            Err(e) => {
                return Err(e);
            },
        };
        let v13 = match x13.after_parse(reader, options, ()) {
            Ok(v) => v,
            Err(e) => {
                return Err(e);
            },
        };
        let v14 = match x14.after_parse(reader, options, ()) {
            Ok(v) => v,
            Err(e) => {
                return Err(e);
            },
        };
        let v15 = match x15.after_parse(reader, options, ()) {
            Ok(v) => v,
            Err(e) => {
                return Err(e);
            },
        };
        let v16 = match x16.after_parse(reader, options, ()) {
            Ok(v) => v,
            Err(e) => {
                return Err(e);
            },
        };
        let v17 = match x17.after_parse(reader, options, ()) {
            Ok(v) => v,
            Err(e) => {
                return Err(e);
            },
        };
        let v18 = match x18.after_parse(reader, options, ()) {
            Ok(v) => v,
            Err(e) => {
                return Err(e);
            },
        };
        let v19 = match x19.after_parse(reader, options, ()) {
            Ok(v) => v,
            Err(e) => {
                return Err(e);
            },
        };
        let v20 = match x20.after_parse(reader, options, ()) {
            Ok(v) => v,
            Err(e) => {
                return Err(e);
            },
        };
        let v21 = match x21.after_parse(reader, options, ()) {
            Ok(v) => v,
            Err(e) => {
                return Err(e);
            },
        };
        let v22 = match x22.after_parse(reader, options, ()) {
            Ok(v) => v,
            Err(e) => {
                return Err(e);
            },
        };
        let v23 = match x23.after_parse(reader, options, ()) {
            Ok(v) => v,
            Err(e) => {
                return Err(e);
            },
        };
        let v24 = match x24.after_parse(reader, options, ()) {
            Ok(v) => v,
            Err(e) => {
                return Err(e);
            },
        };
        let v25 = match x25.after_parse(reader, options, ()) {
            Ok(v) => v,
            Err(e) => {
                return Err(e);
            },
        };
        Ok((v0, v1, v2, v3, v4, v5, v6, v7, v8, v9, v10, v11, v12, v13, v14, v15, v16, v17, v18, v19, v20, v21, v22, v23, v24, v25))
    }
}

impl<T0: BinRead<Args = ()>, T1: BinRead<Args = ()>, T2: BinRead<Args = ()>, T3: BinRead<Args = ()>, T4: BinRead<Args = ()>, T5: BinRead<Args = ()>, T6: BinRead<Args = ()>, T7: BinRead<Args = ()>, T8: BinRead<Args = ()>, T9: BinRead<Args = ()>, T10: BinRead<Args = ()>, T11: BinRead<Args = ()>, T12: BinRead<Args = ()>, T13: BinRead<Args = ()>, T14: BinRead<Args = ()>, T15: BinRead<Args = ()>, T16: BinRead<Args = ()>, T17: BinRead<Args = ()>, T18: BinRead<Args = ()>, T19: BinRead<Args = ()>, T20: BinRead<Args = ()>, T21: BinRead<Args = ()>, T22: BinRead<Args = ()>, T23: BinRead<Args = ()>, T24: BinRead<Args = ()>, T25: BinRead<Args = ()>, T26: BinRead<Args = ()>> BinRead for (T0, T1, T2, T3, T4, T5, T6, T7, T8, T9, T10, T11, T12, T13, T14, T15, T16, T17, T18, T19, T20, T21, T22, T23, T24, T25, T26) {
    type Args = ();

    type Model = (T0::Model, T1::Model, T2::Model, T3::Model, T4::Model, T5::Model, T6::Model, T7::Model, T8::Model, T9::Model, T10::Model, T11::Model, T12::Model, T13::Model, T14::Model, T15::Model, T16::Model, T17::Model, T18::Model, T19::Model, T20::Model, T21::Model, T22::Model, T23::Model, T24::Model, T25::Model, T26::Model);

    open spec fn model(self) -> (T0::Model, T1::Model, T2::Model, T3::Model, T4::Model, T5::Model, T6::Model, T7::Model, T8::Model, T9::Model, T10::Model, T11::Model, T12::Model, T13::Model, T14::Model, T15::Model, T16::Model, T17::Model, T18::Model, T19::Model, T20::Model, T21::Model, T22::Model, T23::Model, T24::Model, T25::Model, T26::Model) {
        (self.0.model(), self.1.model(), self.2.model(), self.3.model(), self.4.model(), self.5.model(), self.6.model(), self.7.model(), self.8.model(), self.9.model(), self.10.model(), self.11.model(), self.12.model(), self.13.model(), self.14.model(), self.15.model(), self.16.model(), self.17.model(), self.18.model(), self.19.model(), self.20.model(), self.21.model(), self.22.model(), self.23.model(), self.24.model(), self.25.model(), self.26.model())
    }

    open spec fn spec_read(s: StreamView, endian: Endian, args: ()) -> Result<
        ((T0::Model, T1::Model, T2::Model, T3::Model, T4::Model, T5::Model, T6::Model, T7::Model, T8::Model, T9::Model, T10::Model, T11::Model, T12::Model, T13::Model, T14::Model, T15::Model, T16::Model, T17::Model, T18::Model, T19::Model, T20::Model, T21::Model, T22::Model, T23::Model, T24::Model, T25::Model, T26::Model), int),
        Error,
    > {
        match T0::spec_read(s, endian, ()) {
            Err(e) => Err(e),
            Ok((m0, p0)) => {
                match T1::spec_read(StreamView { data: s.data, pos: p0 }, endian, ()) {
                    Err(e) => Err(e),
                    Ok((m1, p1)) => {
                        match T2::spec_read(StreamView { data: s.data, pos: p1 }, endian, ()) {
                            Err(e) => Err(e),
                            Ok((m2, p2)) => {
                                match T3::spec_read(StreamView { data: s.data, pos: p2 }, endian, ()) {
                                    Err(e) => Err(e),
                                    Ok((m3, p3)) => {
                                        match T4::spec_read(StreamView { data: s.data, pos: p3 }, endian, ()) {
                                            Err(e) => Err(e),
                                            Ok((m4, p4)) => {
                                                match T5::spec_read(StreamView { data: s.data, pos: p4 }, endian, ()) {
                                                    Err(e) => Err(e),
                                                    Ok((m5, p5)) => {
                                                        match T6::spec_read(StreamView { data: s.data, pos: p5 }, endian, ()) {
                                                            Err(e) => Err(e),
                                                            Ok((m6, p6)) => {
                                                                match T7::spec_read(StreamView { data: s.data, pos: p6 }, endian, ()) {
                                                                    Err(e) => Err(e),
                                                                    Ok((m7, p7)) => {
                                                                        match T8::spec_read(StreamView { data: s.data, pos: p7 }, endian, ()) {
                                                                            Err(e) => Err(e),
                                                                            Ok((m8, p8)) => {
                                                                                match T9::spec_read(StreamView { data: s.data, pos: p8 }, endian, ()) {
                                                                                    Err(e) => Err(e),
                                                                                    Ok((m9, p9)) => {
                                                                                        match T10::spec_read(StreamView { data: s.data, pos: p9 }, endian, ()) {
                                                                                            Err(e) => Err(e),
                                                                                            Ok((m10, p10)) => {
                                                                                                match T11::spec_read(StreamView { data: s.data, pos: p10 }, endian, ()) {
                                                                                                    Err(e) => Err(e),
                                                                                                    Ok((m11, p11)) => {
                                                                                                        match T12::spec_read(StreamView { data: s.data, pos: p11 }, endian, ()) {
                                                                                                            Err(e) => Err(e),
                                                                                                            Ok((m12, p12)) => {
                                                                                                                match T13::spec_read(StreamView { data: s.data, pos: p12 }, endian, ()) {
                                                                                                                    Err(e) => Err(e),
                                                                                                                    Ok((m13, p13)) => {
                                                                                                                        match T14::spec_read(StreamView { data: s.data, pos: p13 }, endian, ()) {
                                                                                                                            Err(e) => Err(e),
                                                                                                                            Ok((m14, p14)) => {
                                                                                                                                match T15::spec_read(StreamView { data: s.data, pos: p14 }, endian, ()) {
                                                                                                                                    Err(e) => Err(e),
                                                                                                                                    Ok((m15, p15)) => {
                                                                                                                                        match T16::spec_read(StreamView { data: s.data, pos: p15 }, endian, ()) {
                                                                                                                                            Err(e) => Err(e),
                                                                                                                                            Ok((m16, p16)) => {
                                                                                                                                                match T17::spec_read(StreamView { data: s.data, pos: p16 }, endian, ()) {
                                                                                                                                                    Err(e) => Err(e),
                                                                                                                                                    Ok((m17, p17)) => {
                                                                                                                                                        match T18::spec_read(StreamView { data: s.data, pos: p17 }, endian, ()) {
                                                                                                                                                            Err(e) => Err(e),
                                                                                                                                                            Ok((m18, p18)) => {
                                                                                                                                                                match T19::spec_read(StreamView { data: s.data, pos: p18 }, endian, ()) {
                                                                                                                                                                    Err(e) => Err(e),
                                                                                                                                                                    Ok((m19, p19)) => {
                                                                                                                                                                        match T20::spec_read(StreamView { data: s.data, pos: p19 }, endian, ()) {
                                                                                                                                                                            Err(e) => Err(e),
                                                                                                                                                                            Ok((m20, p20)) => {
                                                                                                                                                                                match T21::spec_read(StreamView { data: s.data, pos: p20 }, endian, ()) {
                                                                                                                                                                                    Err(e) => Err(e),
                                                                                                                                                                                    Ok((m21, p21)) => {
                                                                                                                                                                                        match T22::spec_read(StreamView { data: s.data, pos: p21 }, endian, ()) {
                                                                                                                                                                                            Err(e) => Err(e),
                                                                                                                                                                                            Ok((m22, p22)) => {
                                                                                                                                                                                                match T23::spec_read(StreamView { data: s.data, pos: p22 }, endian, ()) {
                                                                                                                                                                                                    Err(e) => Err(e),
                                                                                                                                                                                                    Ok((m23, p23)) => {
                                                                                                                                                                                                        match T24::spec_read(StreamView { data: s.data, pos: p23 }, endian, ()) {
                                                                                                                                                                                                            Err(e) => Err(e),
                                                                                                                                                                                                            Ok((m24, p24)) => {
                                                                                                                                                                                                                match T25::spec_read(StreamView { data: s.data, pos: p24 }, endian, ()) {
                                                                                                                                                                                                                    Err(e) => Err(e),
                                                                                                                                                                                                                    Ok((m25, p25)) => {
                                                                                                                                                                                                                        match T26::spec_read(StreamView { data: s.data, pos: p25 }, endian, ()) {
                                                                                                                                                                                                                            Err(e) => Err(e),
                                                                                                                                                                                                                            Ok((m26, p26)) => Ok(((m0, m1, m2, m3, m4, m5, m6, m7, m8, m9, m10, m11, m12, m13, m14, m15, m16, m17, m18, m19, m20, m21, m22, m23, m24, m25, m26), p26)),
                                                                                                                                                                                                                        }
                                                                                                                                                                                                                    },
                                                                                                                                                                                                                }
                                                                                                                                                                                                            },
                                                                                                                                                                                                        }
                                                                                                                                                                                                    },
                                                                                                                                                                                                }
                                                                                                                                                                                            },
                                                                                                                                                                                        }
                                                                                                                                                                                    },
                                                                                                                                                                                }
                                                                                                                                                                            },
                                                                                                                                                                        }
                                                                                                                                                                    },
                                                                                                                                                                }
                                                                                                                                                            },
                                                                                                                                                        }
                                                                                                                                                    },
                                                                                                                                                }
                                                                                                                                            },
                                                                                                                                        }
                                                                                                                                    },
                                                                                                                                }
                                                                                                                            },
                                                                                                                        }
                                                                                                                    },
                                                                                                                }
                                                                                                            },
                                                                                                        }
                                                                                                    },
                                                                                                }
                                                                                            },
                                                                                        }
                                                                                    },
                                                                                }
                                                                            },
                                                                        }
                                                                    },
                                                                }
                                                            },
                                                        }
                                                    },
                                                }
                                            },
                                        }
                                    },
                                }
                            },
                        }
                    },
                }
            },
        }
    }

    open spec fn spec_after(m: (T0::Model, T1::Model, T2::Model, T3::Model, T4::Model, T5::Model, T6::Model, T7::Model, T8::Model, T9::Model, T10::Model, T11::Model, T12::Model, T13::Model, T14::Model, T15::Model, T16::Model, T17::Model, T18::Model, T19::Model, T20::Model, T21::Model, T22::Model, T23::Model, T24::Model, T25::Model, T26::Model), s: StreamView, endian: Endian, args: ()) -> Result<
        ((T0::Model, T1::Model, T2::Model, T3::Model, T4::Model, T5::Model, T6::Model, T7::Model, T8::Model, T9::Model, T10::Model, T11::Model, T12::Model, T13::Model, T14::Model, T15::Model, T16::Model, T17::Model, T18::Model, T19::Model, T20::Model, T21::Model, T22::Model, T23::Model, T24::Model, T25::Model, T26::Model), int),
        Error,
    > {
        match T0::spec_after(m.0, s, endian, ()) {
            Err(e) => Err(e),
            Ok((m0, p0)) => {
                match T1::spec_after(m.1, StreamView { data: s.data, pos: p0 }, endian, ()) {
                    Err(e) => Err(e),
                    Ok((m1, p1)) => {
                        match T2::spec_after(m.2, StreamView { data: s.data, pos: p1 }, endian, ()) {
                            Err(e) => Err(e),
                            Ok((m2, p2)) => {
                                match T3::spec_after(m.3, StreamView { data: s.data, pos: p2 }, endian, ()) {
                                    Err(e) => Err(e),
                                    Ok((m3, p3)) => {
                                        match T4::spec_after(m.4, StreamView { data: s.data, pos: p3 }, endian, ()) {
                                            Err(e) => Err(e),
                                            Ok((m4, p4)) => {
                                                match T5::spec_after(m.5, StreamView { data: s.data, pos: p4 }, endian, ()) {
                                                    Err(e) => Err(e),
                                                    Ok((m5, p5)) => {
                                                        match T6::spec_after(m.6, StreamView { data: s.data, pos: p5 }, endian, ()) {
                                                            Err(e) => Err(e),
                                                            Ok((m6, p6)) => {
                                                                match T7::spec_after(m.7, StreamView { data: s.data, pos: p6 }, endian, ()) {
                                                                    Err(e) => Err(e),
                                                                    Ok((m7, p7)) => {
                                                                        match T8::spec_after(m.8, StreamView { data: s.data, pos: p7 }, endian, ()) {
                                                                            Err(e) => Err(e),
                                                                            Ok((m8, p8)) => {
                                                                                match T9::spec_after(m.9, StreamView { data: s.data, pos: p8 }, endian, ()) {
                                                                                    Err(e) => Err(e),
                                                                                    Ok((m9, p9)) => {
                                                                                        match T10::spec_after(m.10, StreamView { data: s.data, pos: p9 }, endian, ()) {
                                                                                            Err(e) => Err(e),
                                                                                            Ok((m10, p10)) => {
                                                                                                match T11::spec_after(m.11, StreamView { data: s.data, pos: p10 }, endian, ()) {
                                                                                                    Err(e) => Err(e),
                                                                                                    Ok((m11, p11)) => {
                                                                                                        match T12::spec_after(m.12, StreamView { data: s.data, pos: p11 }, endian, ()) {
                                                                                                            Err(e) => Err(e),
                                                                                                            Ok((m12, p12)) => {
                                                                                                                match T13::spec_after(m.13, StreamView { data: s.data, pos: p12 }, endian, ()) {
                                                                                                                    Err(e) => Err(e),
                                                                                                                    Ok((m13, p13)) => {
                                                                                                                        match T14::spec_after(m.14, StreamView { data: s.data, pos: p13 }, endian, ()) {
                                                                                                                            Err(e) => Err(e),
                                                                                                                            Ok((m14, p14)) => {
                                                                                                                                match T15::spec_after(m.15, StreamView { data: s.data, pos: p14 }, endian, ()) {
                                                                                                                                    Err(e) => Err(e),
                                                                                                                                    Ok((m15, p15)) => {
                                                                                                                                        match T16::spec_after(m.16, StreamView { data: s.data, pos: p15 }, endian, ()) {
                                                                                                                                            Err(e) => Err(e),
                                                                                                                                            Ok((m16, p16)) => {
                                                                                                                                                match T17::spec_after(m.17, StreamView { data: s.data, pos: p16 }, endian, ()) {
                                                                                                                                                    Err(e) => Err(e),
                                                                                                                                                    Ok((m17, p17)) => {
                                                                                                                                                        match T18::spec_after(m.18, StreamView { data: s.data, pos: p17 }, endian, ()) {
                                                                                                                                                            Err(e) => Err(e),
                                                                                                                                                            Ok((m18, p18)) => {
                                                                                                                                                                match T19::spec_after(m.19, StreamView { data: s.data, pos: p18 }, endian, ()) {
                                                                                                                                                                    Err(e) => Err(e),
                                                                                                                                                                    Ok((m19, p19)) => {
                                                                                                                                                                        match T20::spec_after(m.20, StreamView { data: s.data, pos: p19 }, endian, ()) {
                                                                                                                                                                            Err(e) => Err(e),
                                                                                                                                                                            Ok((m20, p20)) => {
                                                                                                                                                                                match T21::spec_after(m.21, StreamView { data: s.data, pos: p20 }, endian, ()) {
                                                                                                                                                                                    Err(e) => Err(e),
                                                                                                                                                                                    Ok((m21, p21)) => {
                                                                                                                                                                                        match T22::spec_after(m.22, StreamView { data: s.data, pos: p21 }, endian, ()) {
                                                                                                                                                                                            Err(e) => Err(e),
                                                                                                                                                                                            Ok((m22, p22)) => {
                                                                                                                                                                                                match T23::spec_after(m.23, StreamView { data: s.data, pos: p22 }, endian, ()) {
                                                                                                                                                                                                    Err(e) => Err(e),
                                                                                                                                                                                                    Ok((m23, p23)) => {
                                                                                                                                                                                                        match T24::spec_after(m.24, StreamView { data: s.data, pos: p23 }, endian, ()) {
                                                                                                                                                                                                            Err(e) => Err(e),
                                                                                                                                                                                                            Ok((m24, p24)) => {
                                                                                                                                                                                                                match T25::spec_after(m.25, StreamView { data: s.data, pos: p24 }, endian, ()) {
                                                                                                                                                                                                                    Err(e) => Err(e),
                                                                                                                                                                                                                    Ok((m25, p25)) => {
                                                                                                                                                                                                                        match T26::spec_after(m.26, StreamView { data: s.data, pos: p25 }, endian, ()) {
                                                                                                                                                                                                                            Err(e) => Err(e),
                                                                                                                                                                                                                            Ok((m26, p26)) => Ok(((m0, m1, m2, m3, m4, m5, m6, m7, m8, m9, m10, m11, m12, m13, m14, m15, m16, m17, m18, m19, m20, m21, m22, m23, m24, m25, m26), p26)),
                                                                                                                                                                                                                        }
                                                                                                                                                                                                                    },
                                                                                                                                                                                                                }
                                                                                                                                                                                                            },
                                                                                                                                                                                                        }
                                                                                                                                                                                                    },
                                                                                                                                                                                                }
                                                                                                                                                                                            },
                                                                                                                                                                                        }
                                                                                                                                                                                    },
                                                                                                                                                                                }
                                                                                                                                                                            },
                                                                                                                                                                        }
                                                                                                                                                                    },
                                                                                                                                                                }
                                                                                                                                                            },
                                                                                                                                                        }
                                                                                                                                                    },
                                                                                                                                                }
                                                                                                                                            },
                                                                                                                                        }
                                                                                                                                    },
                                                                                                                                }
                                                                                                                            },
                                                                                                                        }
                                                                                                                    },
                                                                                                                }
                                                                                                            },
                                                                                                        }
                                                                                                    },
                                                                                                }
                                                                                            },
                                                                                        }
                                                                                    },
                                                                                }
                                                                            },
                                                                        }
                                                                    },
                                                                }
                                                            },
                                                        }
                                                    },
                                                }
                                            },
                                        }
                                    },
                                }
                            },
                        }
                    },
                }
            },
        }
    }

    open spec fn restores_on_failure() -> bool {
        false
    }

    fn read_options(reader: &mut Cursor, options: &ReadOptions, args: ()) -> (r: BinResult<
        (T0, T1, T2, T3, T4, T5, T6, T7, T8, T9, T10, T11, T12, T13, T14, T15, T16, T17, T18, T19, T20, T21, T22, T23, T24, T25, T26),
    >) {
        proof {
            assert(!Self::restores_on_failure());
        }
        let v0 = match T0::read_options(reader, options, ()) {
            Ok(v) => v,
            Err(e) => {
                return Err(e);
            },
        };
        let v1 = match T1::read_options(reader, options, ()) {
            Ok(v) => v,
            Err(e) => {
                return Err(e);
            },
        };
        let v2 = match T2::read_options(reader, options, ()) {
            Ok(v) => v,
            Err(e) => {
                return Err(e);
            },
        };
        let v3 = match T3::read_options(reader, options, ()) {
            Ok(v) => v,
            Err(e) => {
                return Err(e);
            },
        };
        let v4 = match T4::read_options(reader, options, ()) {
            Ok(v) => v,
            Err(e) => {
                return Err(e);
            },
        };
        let v5 = match T5::read_options(reader, options, ()) {
            Ok(v) => v,
            Err(e) => {
                return Err(e);
            },
        };
        let v6 = match T6::read_options(reader, options, ()) {
            Ok(v) => v,
            Err(e) => {
                return Err(e);
            },
        };
        let v7 = match T7::read_options(reader, options, ()) {
            Ok(v) => v,
            Err(e) => {
                return Err(e);
            },
        };
        let v8 = match T8::read_options(reader, options, ()) {
            Ok(v) => v,
            Err(e) => {
                return Err(e);
            },
        };
        let v9 = match T9::read_options(reader, options, ()) {
            Ok(v) => v,
            Err(e) => {
                return Err(e);
            },
        };
        let v10 = match T10::read_options(reader, options, ()) {
            Ok(v) => v,
            Err(e) => {
                return Err(e);
            },
        };
        let v11 = match T11::read_options(reader, options, ()) {
            Ok(v) => v,
            Err(e) => {
                return Err(e);
            },
        };
        let v12 = match T12::read_options(reader, options, ()) {
            Ok(v) => v,
            Err(e) => {
                return Err(e);
            },
        };
        let v13 = match T13::read_options(reader, options, ()) {
            Ok(v) => v,
            Err(e) => {
                return Err(e);
            },
        };
        let v14 = match T14::read_options(reader, options, ()) {
            Ok(v) => v,
            Err(e) => {
                return Err(e);
            },
        };
        let v15 = match T15::read_options(reader, options, ()) {
            Ok(v) => v,
            Err(e) => {
                return Err(e);
            },
        };
        let v16 = match T16::read_options(reader, options, ()) {
            Ok(v) => v,
            Err(e) => {
                return Err(e);
            },
        };
        let v17 = match T17::read_options(reader, options, ()) {
            Ok(v) => v,
            Err(e) => {
                return Err(e);
            },
        };
        let v18 = match T18::read_options(reader, options, ()) {
            Ok(v) => v,
            Err(e) => {
                return Err(e);
            },
        };
        let v19 = match T19::read_options(reader, options, ()) {
            Ok(v) => v,
            Err(e) => {
                return Err(e);
            },
        };
        let v20 = match T20::read_options(reader, options, ()) {
            Ok(v) => v,
            Err(e) => {
                return Err(e);
            },
        };
        let v21 = match T21::read_options(reader, options, ()) {
            Ok(v) => v,
            Err(e) => {
                return Err(e);
            },
        };
        let v22 = match T22::read_options(reader, options, ()) {
            Ok(v) => v,
            Err(e) => {
                return Err(e);
            },
        };
        let v23 = match T23::read_options(reader, options, ()) {
            Ok(v) => v,
            Err(e) => {
                return Err(e);
            },
        };
        let v24 = match T24::read_options(reader, options, ()) {
            Ok(v) => v,
            Err(e) => {
                return Err(e);
            },
        };
        let v25 = match T25::read_options(reader, options, ()) {
            Ok(v) => v,
            Err(e) => {
                return Err(e);
            },
        };
        let v26 = match T26::read_options(reader, options, ()) {
            Ok(v) => v,
            Err(e) => {
                return Err(e);
            },
        };
        Ok((v0, v1, v2, v3, v4, v5, v6, v7, v8, v9, v10, v11, v12, v13, v14, v15, v16, v17, v18, v19, v20, v21, v22, v23, v24, v25, v26))
    }

    fn after_parse(self, reader: &mut Cursor, options: &ReadOptions, args: ()) -> (r: BinResult<
        (T0, T1, T2, T3, T4, T5, T6, T7, T8, T9, T10, T11, T12, T13, T14, T15, T16, T17, T18, T19, T20, T21, T22, T23, T24, T25, T26),
    >) {
        let (x0, x1, x2, x3, x4, x5, x6, x7, x8, x9, x10, x11, x12, x13, x14, x15, x16, x17, x18, x19, x20, x21, x22, x23, x24, x25, x26) = self;
        let v0 = match x0.after_parse(reader, options, ()) {
            Ok(v) => v,
            Err(e) => {
                return Err(e);
            },
        };
        let v1 = match x1.after_parse(reader, options, ()) {
            Ok(v) => v,
            Err(e) => {
                return Err(e);
            },
        };
        let v2 = match x2.after_parse(reader, options, ()) {
            Ok(v) => v,
            Err(e) => {
                return Err(e);
            },
        };
        let v3 = match x3.after_parse(reader, options, ()) {
            Ok(v) => v,
            Err(e) => {
                return Err(e);
            },
        };
        let v4 = match x4.after_parse(reader, options, ()) {
            Ok(v) => v,
            Err(e) => {
                return Err(e);
            },
        };
        let v5 = match x5.after_parse(reader, options, ()) {
            Ok(v) => v,
            Err(e) => {
                return Err(e);
            },
        };
        let v6 = match x6.after_parse(reader, options, ()) {
            Ok(v) => v,
            Err(e) => {
                return Err(e);
            },
        };
        let v7 = match x7.after_parse(reader, options, ()) {
            Ok(v) => v,
            Err(e) => {
                return Err(e);
            },
        };
        let v8 = match x8.after_parse(reader, options, ()) {
            Ok(v) => v,
            Err(e) => {
                return Err(e);
            },
        };
        let v9 = match x9.after_parse(reader, options, ()) {
            Ok(v) => v,
            Err(e) => {
                return Err(e);
            },
        };
        let v10 = match x10.after_parse(reader, options, ()) {
            Ok(v) => v,
            Err(e) => {
                return Err(e);
            },
        };
        let v11 = match x11.after_parse(reader, options, ()) {
            Ok(v) => v,
            Err(e) => {
                return Err(e);
            },
        };
        let v12 = match x12.after_parse(reader, options, ()) {
            Ok(v) => v,
            Err(e) => {
                return Err(e);
            },
        };
        let v13 = match x13.after_parse(reader, options, ()) {
            Ok(v) => v,
            Err(e) => {
                return Err(e);
            },
        };
        let v14 = match x14.after_parse(reader, options, ()) {
            Ok(v) => v,
            Err(e) => {
                return Err(e);
            },
        };
        let v15 = match x15.after_parse(reader, options, ()) {
            Ok(v) => v,
            Err(e) => {
                return Err(e);
            },
        };
        let v16 = match x16.after_parse(reader, options, ()) {
            Ok(v) => v,
            Err(e) => {
                return Err(e);
            },
        };
        let v17 = match x17.after_parse(reader, options, ()) {
            Ok(v) => v,
            Err(e) => {
                return Err(e);
            },
        };
        let v18 = match x18.after_parse(reader, options, ()) {
            Ok(v) => v,
            Err(e) => {
                return Err(e);
            },
        };
        let v19 = match x19.after_parse(reader, options, ()) {
            Ok(v) => v,
            Err(e) => {
                return Err(e);
            },
        };
        let v20 = match x20.after_parse(reader, options, ()) {
            Ok(v) => v,
            Err(e) => {
                return Err(e);
            },
        };
        let v21 = match x21.after_parse(reader, options, ()) {
            Ok(v) => v,
            Err(e) => {
                return Err(e);
            },
        };
        let v22 = match x22.after_parse(reader, options, ()) {
            Ok(v) => v,
            Err(e) => {
                return Err(e);
            },
        };
        let v23 = match x23.after_parse(reader, options, ()) {
            Ok(v) => v,
            Err(e) => {
                return Err(e);
            },
        };
        let v24 = match x24.after_parse(reader, options, ()) {
            Ok(v) => v,
            Err(e) => {
                return Err(e);
            },
        };
        let v25 = match x25.after_parse(reader, options, ()) {
            Ok(v) => v,
            Err(e) => {
                return Err(e);
            },
        };
        let v26 = match x26.after_parse(reader, options, ()) {
            Ok(v) => v,
            Err(e) => {
                return Err(e);
            },
        };
        Ok((v0, v1, v2, v3, v4, v5, v6, v7, v8, v9, v10, v11, v12, v13, v14, v15, v16, v17, v18, v19, v20, v21, v22, v23, v24, v25, v26))
    }
}

impl<T0: BinRead<Args = ()>, T1: BinRead<Args = ()>, T2: BinRead<Args = ()>, T3: BinRead<Args = ()>, T4: BinRead<Args = ()>, T5: BinRead<Args = ()>, T6: BinRead<Args = ()>, T7: BinRead<Args = ()>, T8: BinRead<Args = ()>, T9: BinRead<Args = ()>, T10: BinRead<Args = ()>, T11: BinRead<Args = ()>, T12: BinRead<Args = ()>, T13: BinRead<Args = ()>, T14: BinRead<Args = ()>, T15: BinRead<Args = ()>, T16: BinRead<Args = ()>, T17: BinRead<Args = ()>, T18: BinRead<Args = ()>, T19: BinRead<Args = ()>, T20: BinRead<Args = ()>, T21: BinRead<Args = ()>, T22: BinRead<Args = ()>, T23: BinRead<Args = ()>, T24: BinRead<Args = ()>, T25: BinRead<Args = ()>, T26: BinRead<Args = ()>, T27: BinRead<Args = ()>> BinRead for (T0, T1, T2, T3, T4, T5, T6, T7, T8, T9, T10, T11, T12, T13, T14, T15, T16, T17, T18, T19, T20, T21, T22, T23, T24, T25, T26, T27) {
    type Args = ();

    type Model = (T0::Model, T1::Model, T2::Model, T3::Model, T4::Model, T5::Model, T6::Model, T7::Model, T8::Model, T9::Model, T10::Model, T11::Model, T12::Model, T13::Model, T14::Model, T15::Model, T16::Model, T17::Model, T18::Model, T19::Model, T20::Model, T21::Model, T22::Model, T23::Model, T24::Model, T25::Model, T26::Model, T27::Model);

    open spec fn model(self) -> (T0::Model, T1::Model, T2::Model, T3::Model, T4::Model, T5::Model, T6::Model, T7::Model, T8::Model, T9::Model, T10::Model, T11::Model, T12::Model, T13::Model, T14::Model, T15::Model, T16::Model, T17::Model, T18::Model, T19::Model, T20::Model, T21::Model, T22::Model, T23::Model, T24::Model, T25::Model, T26::Model, T27::Model) {
        (self.0.model(), self.1.model(), self.2.model(), self.3.model(), self.4.model(), self.5.model(), self.6.model(), self.7.model(), self.8.model(), self.9.model(), self.10.model(), self.11.model(), self.12.model(), self.13.model(), self.14.model(), self.15.model(), self.16.model(), self.17.model(), self.18.model(), self.19.model(), self.20.model(), self.21.model(), self.22.model(), self.23.model(), self.24.model(), self.25.model(), self.26.model(), self.27.model())
    }

    open spec fn spec_read(s: StreamView, endian: Endian, args: ()) -> Result<
        ((T0::Model, T1::Model, T2::Model, T3::Model, T4::Model, T5::Model, T6::Model, T7::Model, T8::Model, T9::Model, T10::Model, T11::Model, T12::Model, T13::Model, T14::Model, T15::Model, T16::Model, T17::Model, T18::Model, T19::Model, T20::Model, T21::Model, T22::Model, T23::Model, T24::Model, T25::Model, T26::Model, T27::Model), int),
        Error,
    > {
        match T0::spec_read(s, endian, ()) {
            Err(e) => Err(e),
            Ok((m0, p0)) => {
                match T1::spec_read(StreamView { data: s.data, pos: p0 }, endian, ()) {
                    Err(e) => Err(e),
                    Ok((m1, p1)) => {
                        match T2::spec_read(StreamView { data: s.data, pos: p1 }, endian, ()) {
                            Err(e) => Err(e),
                            Ok((m2, p2)) => {
                                match T3::spec_read(StreamView { data: s.data, pos: p2 }, endian, ()) {
                                    Err(e) => Err(e),
                                    Ok((m3, p3)) => {
                                        match T4::spec_read(StreamView { data: s.data, pos: p3 }, endian, ()) {
                                            Err(e) => Err(e),
                                            Ok((m4, p4)) => {
                                                match T5::spec_read(StreamView { data: s.data, pos: p4 }, endian, ()) {
                                                    Err(e) => Err(e),
                                                    Ok((m5, p5)) => {
                                                        match T6::spec_read(StreamView { data: s.data, pos: p5 }, endian, ()) {
                                                            Err(e) => Err(e),
                                                            Ok((m6, p6)) => {
                                                                match T7::spec_read(StreamView { data: s.data, pos: p6 }, endian, ()) {
                                                                    Err(e) => Err(e),
                                                                    Ok((m7, p7)) => {
                                                                        match T8::spec_read(StreamView { data: s.data, pos: p7 }, endian, ()) {
                                                                            Err(e) => Err(e),
                                                                            Ok((m8, p8)) => {
                                                                                match T9::spec_read(StreamView { data: s.data, pos: p8 }, endian, ()) {
                                                                                    Err(e) => Err(e),
                                                                                    Ok((m9, p9)) => {
                                                                                        match T10::spec_read(StreamView { data: s.data, pos: p9 }, endian, ()) {
                                                                                            Err(e) => Err(e),
                                                                                            Ok((m10, p10)) => {
                                                                                                match T11::spec_read(StreamView { data: s.data, pos: p10 }, endian, ()) {
                                                                                                    Err(e) => Err(e),
                                                                                                    Ok((m11, p11)) => {
                                                                                                        match T12::spec_read(StreamView { data: s.data, pos: p11 }, endian, ()) {
                                                                                                            Err(e) => Err(e),
                                                                                                            Ok((m12, p12)) => {
                                                                                                                match T13::spec_read(StreamView { data: s.data, pos: p12 }, endian, ()) {
                                                                                                                    Err(e) => Err(e),
                                                                                                                    Ok((m13, p13)) => {
                                                                                                                        match T14::spec_read(StreamView { data: s.data, pos: p13 }, endian, ()) {
                                                                                                                            Err(e) => Err(e),
                                                                                                                            Ok((m14, p14)) => {
                                                                                                                                match T15::spec_read(StreamView { data: s.data, pos: p14 }, endian, ()) {
                                                                                                                                    Err(e) => Err(e),
                                                                                                                                    Ok((m15, p15)) => {
                                                                                                                                        match T16::spec_read(StreamView { data: s.data, pos: p15 }, endian, ()) {
                                                                                                                                            Err(e) => Err(e),
                                                                                                                                            Ok((m16, p16)) => {
                                                                                                                                                match T17::spec_read(StreamView { data: s.data, pos: p16 }, endian, ()) {
                                                                                                                                                    Err(e) => Err(e),
                                                                                                                                                    Ok((m17, p17)) => {
                                                                                                                                                        match T18::spec_read(StreamView { data: s.data, pos: p17 }, endian, ()) {
                                                                                                                                                            Err(e) => Err(e),
                                                                                                                                                            Ok((m18, p18)) => {
                                                                                                                                                                match T19::spec_read(StreamView { data: s.data, pos: p18 }, endian, ()) {
                                                                                                                                                                    Err(e) => Err(e),
                                                                                                                                                                    Ok((m19, p19)) => {
                                                                                                                                                                        match T20::spec_read(StreamView { data: s.data, pos: p19 }, endian, ()) {
                                                                                                                                                                            Err(e) => Err(e),
                                                                                                                                                                            Ok((m20, p20)) => {
                                                                                                                                                                                match T21::spec_read(StreamView { data: s.data, pos: p20 }, endian, ()) {
                                                                                                                                                                                    Err(e) => Err(e),
                                                                                                                                                                                    Ok((m21, p21)) => {
                                                                                                                                                                                        match T22::spec_read(StreamView { data: s.data, pos: p21 }, endian, ()) {
                                                                                                                                                                                            Err(e) => Err(e),
                                                                                                                                                                                            Ok((m22, p22)) => {
                                                                                                                                                                                                match T23::spec_read(StreamView { data: s.data, pos: p22 }, endian, ()) {
                                                                                                                                                                                                    Err(e) => Err(e),
                                                                                                                                                                                                    Ok((m23, p23)) => {
                                                                                                                                                                                                        match T24::spec_read(StreamView { data: s.data, pos: p23 }, endian, ()) {
                                                                                                                                                                                                            Err(e) => Err(e),
                                                                                                                                                                                                            Ok((m24, p24)) => {
                                                                                                                                                                                                                match T25::spec_read(StreamView { data: s.data, pos: p24 }, endian, ()) {
                                                                                                                                                                                                                    Err(e) => Err(e),
                                                                                                                                                                                                                    Ok((m25, p25)) => {
                                                                                                                                                                                                                        match T26::spec_read(StreamView { data: s.data, pos: p25 }, endian, ()) {
                                                                                                                                                                                                                            Err(e) => Err(e),
                                                                                                                                                                                                                            Ok((m26, p26)) => {
                                                                                                                                                                                                                                match T27::spec_read(StreamView { data: s.data, pos: p26 }, endian, ()) {
                                                                                                                                                                                                                                    Err(e) => Err(e),
                                                                                                                                                                                                                                    Ok((m27, p27)) => Ok(((m0, m1, m2, m3, m4, m5, m6, m7, m8, m9, m10, m11, m12, m13, m14, m15, m16, m17, m18, m19, m20, m21, m22, m23, m24, m25, m26, m27), p27)),
                                                                                                                                                                                                                                }
                                                                                                                                                                                                                            },
                                                                                                                                                                                                                        }
                                                                                                                                                                                                                    },
                                                                                                                                                                                                                }
                                                                                                                                                                                                            },
                                                                                                                                                                                                        }
                                                                                                                                                                                                    },
                                                                                                                                                                                                }
                                                                                                                                                                                            },
                                                                                                                                                                                        }
                                                                                                                                                                                    },
                                                                                                                                                                                }
                                                                                                                                                                            },
                                                                                                                                                                        }
                                                                                                                                                                    },
                                                                                                                                                                }
                                                                                                                                                            },
                                                                                                                                                        }
                                                                                                                                                    },
                                                                                                                                                }
                                                                                                                                            },
                                                                                                                                        }
                                                                                                                                    },
                                                                                                                                }
                                                                                                                            },
                                                                                                                        }
                                                                                                                    },
                                                                                                                }
                                                                                                            },
                                                                                                        }
                                                                                                    },
                                                                                                }
                                                                                            },
                                                                                        }
                                                                                    },
                                                                                }
                                                                            },
                                                                        }
                                                                    },
                                                                }
                                                            },
                                                        }
                                                    },
                                                }
                                            },
                                        }
                                    },
                                }
                            },
                        }
                    },
                }
            },
        }
    }

    open spec fn spec_after(m: (T0::Model, T1::Model, T2::Model, T3::Model, T4::Model, T5::Model, T6::Model, T7::Model, T8::Model, T9::Model, T10::Model, T11::Model, T12::Model, T13::Model, T14::Model, T15::Model, T16::Model, T17::Model, T18::Model, T19::Model, T20::Model, T21::Model, T22::Model, T23::Model, T24::Model, T25::Model, T26::Model, T27::Model), s: StreamView, endian: Endian, args: ()) -> Result<
        ((T0::Model, T1::Model, T2::Model, T3::Model, T4::Model, T5::Model, T6::Model, T7::Model, T8::Model, T9::Model, T10::Model, T11::Model, T12::Model, T13::Model, T14::Model, T15::Model, T16::Model, T17::Model, T18::Model, T19::Model, T20::Model, T21::Model, T22::Model, T23::Model, T24::Model, T25::Model, T26::Model, T27::Model), int),
        Error,
    > {
        match T0::spec_after(m.0, s, endian, ()) {
            Err(e) => Err(e),
            Ok((m0, p0)) => {
                match T1::spec_after(m.1, StreamView { data: s.data, pos: p0 }, endian, ()) {
                    Err(e) => Err(e),
                    Ok((m1, p1)) => {
                        match T2::spec_after(m.2, StreamView { data: s.data, pos: p1 }, endian, ()) {
                            Err(e) => Err(e),
                            Ok((m2, p2)) => {
                                match T3::spec_after(m.3, StreamView { data: s.data, pos: p2 }, endian, ()) {
                                    Err(e) => Err(e),
                                    Ok((m3, p3)) => {
                                        match T4::spec_after(m.4, StreamView { data: s.data, pos: p3 }, endian, ()) {
                                            Err(e) => Err(e),
                                            Ok((m4, p4)) => {
                                                match T5::spec_after(m.5, StreamView { data: s.data, pos: p4 }, endian, ()) {
                                                    Err(e) => Err(e),
                                                    Ok((m5, p5)) => {
                                                        match T6::spec_after(m.6, StreamView { data: s.data, pos: p5 }, endian, ()) {
                                                            Err(e) => Err(e),
                                                            Ok((m6, p6)) => {
                                                                match T7::spec_after(m.7, StreamView { data: s.data, pos: p6 }, endian, ()) {
                                                                    Err(e) => Err(e),
                                                                    Ok((m7, p7)) => {
                                                                        match T8::spec_after(m.8, StreamView { data: s.data, pos: p7 }, endian, ()) {
                                                                            Err(e) => Err(e),
                                                                            Ok((m8, p8)) => {
                                                                                match T9::spec_after(m.9, StreamView { data: s.data, pos: p8 }, endian, ()) {
                                                                                    Err(e) => Err(e),
                                                                                    Ok((m9, p9)) => {
                                                                                        match T10::spec_after(m.10, StreamView { data: s.data, pos: p9 }, endian, ()) {
                                                                                            Err(e) => Err(e),
                                                                                            Ok((m10, p10)) => {
                                                                                                match T11::spec_after(m.11, StreamView { data: s.data, pos: p10 }, endian, ()) {
                                                                                                    Err(e) => Err(e),
                                                                                                    Ok((m11, p11)) => {
                                                                                                        match T12::spec_after(m.12, StreamView { data: s.data, pos: p11 }, endian, ()) {
                                                                                                            Err(e) => Err(e),
                                                                                                            Ok((m12, p12)) => {
                                                                                                                match T13::spec_after(m.13, StreamView { data: s.data, pos: p12 }, endian, ()) {
                                                                                                                    Err(e) => Err(e),
                                                                                                                    Ok((m13, p13)) => {
                                                                                                                        match T14::spec_after(m.14, StreamView { data: s.data, pos: p13 }, endian, ()) {
                                                                                                                            Err(e) => Err(e),
                                                                                                                            Ok((m14, p14)) => {
                                                                                                                                match T15::spec_after(m.15, StreamView { data: s.data, pos: p14 }, endian, ()) {
                                                                                                                                    Err(e) => Err(e),
                                                                                                                                    Ok((m15, p15)) => {
                                                                                                                                        match T16::spec_after(m.16, StreamView { data: s.data, pos: p15 }, endian, ()) {
                                                                                                                                            Err(e) => Err(e),
                                                                                                                                            Ok((m16, p16)) => {
                                                                                                                                                match T17::spec_after(m.17, StreamView { data: s.data, pos: p16 }, endian, ()) {
                                                                                                                                                    Err(e) => Err(e),
                                                                                                                                                    Ok((m17, p17)) => {
                                                                                                                                                        match T18::spec_after(m.18, StreamView { data: s.data, pos: p17 }, endian, ()) {
                                                                                                                                                            Err(e) => Err(e),
                                                                                                                                                            Ok((m18, p18)) => {
                                                                                                                                                                match T19::spec_after(m.19, StreamView { data: s.data, pos: p18 }, endian, ()) {
                                                                                                                                                                    Err(e) => Err(e),
                                                                                                                                                                    Ok((m19, p19)) => {
                                                                                                                                                                        match T20::spec_after(m.20, StreamView { data: s.data, pos: p19 }, endian, ()) {
                                                                                                                                                                            Err(e) => Err(e),
                                                                                                                                                                            Ok((m20, p20)) => {
                                                                                                                                                                                match T21::spec_after(m.21, StreamView { data: s.data, pos: p20 }, endian, ()) {
                                                                                                                                                                                    Err(e) => Err(e),
                                                                                                                                                                                    Ok((m21, p21)) => {
                                                                                                                                                                                        match T22::spec_after(m.22, StreamView { data: s.data, pos: p21 }, endian, ()) {
                                                                                                                                                                                            Err(e) => Err(e),
                                                                                                                                                                                            Ok((m22, p22)) => {
                                                                                                                                                                                                match T23::spec_after(m.23, StreamView { data: s.data, pos: p22 }, endian, ()) {
                                                                                                                                                                                                    Err(e) => Err(e),
                                                                                                                                                                                                    Ok((m23, p23)) => {
                                                                                                                                                                                                        match T24::spec_after(m.24, StreamView { data: s.data, pos: p23 }, endian, ()) {
                                                                                                                                                                                                            Err(e) => Err(e),
                                                                                                                                                                                                            Ok((m24, p24)) => {
                                                                                                                                                                                                                match T25::spec_after(m.25, StreamView { data: s.data, pos: p24 }, endian, ()) {
                                                                                                                                                                                                                    Err(e) => Err(e),
                                                                                                                                                                                                                    Ok((m25, p25)) => {
                                                                                                                                                                                                                        match T26::spec_after(m.26, StreamView { data: s.data, pos: p25 }, endian, ()) {
                                                                                                                                                                                                                            Err(e) => Err(e),
                                                                                                                                                                                                                            Ok((m26, p26)) => {
                                                                                                                                                                                                                                match T27::spec_after(m.27, StreamView { data: s.data, pos: p26 }, endian, ()) {
                                                                                                                                                                                                                                    Err(e) => Err(e),
                                                                                                                                                                                                                                    Ok((m27, p27)) => Ok(((m0, m1, m2, m3, m4, m5, m6, m7, m8, m9, m10, m11, m12, m13, m14, m15, m16, m17, m18, m19, m20, m21, m22, m23, m24, m25, m26, m27), p27)),
                                                                                                                                                                                                                                }
                                                                                                                                                                                                                            },
                                                                                                                                                                                                                        }
                                                                                                                                                                                                                    },
                                                                                                                                                                                                                }
                                                                                                                                                                                                            },
                                                                                                                                                                                                        }
                                                                                                                                                                                                    },
                                                                                                                                                                                                }
                                                                                                                                                                                            },
                                                                                                                                                                                        }
                                                                                                                                                                                    },
                                                                                                                                                                                }
                                                                                                                                                                            },
                                                                                                                                                                        }
                                                                                                                                                                    },
                                                                                                                                                                }
                                                                                                                                                            },
                                                                                                                                                        }
                                                                                                                                                    },
                                                                                                                                                }
                                                                                                                                            },
                                                                                                                                        }
                                                                                                                                    },
                                                                                                                                }
                                                                                                                            },
                                                                                                                        }
                                                                                                                    },
                                                                                                                }
                                                                                                            },
                                                                                                        }
                                                                                                    },
                                                                                                }
                                                                                            },
                                                                                        }
                                                                                    },
                                                                                }
                                                                            },
                                                                        }
                                                                    },
                                                                }
                                                            },
                                                        }
                                                    },
                                                }
                                            },
                                        }
                                    },
                                }
                            },
                        }
                    },
                }
            },
        }
    }

    open spec fn restores_on_failure() -> bool {
        false
    }

    fn read_options(reader: &mut Cursor, options: &ReadOptions, args: ()) -> (r: BinResult<
        (T0, T1, T2, T3, T4, T5, T6, T7, T8, T9, T10, T11, T12, T13, T14, T15, T16, T17, T18, T19, T20, T21, T22, T23, T24, T25, T26, T27),
    >) {
        proof {
            assert(!Self::restores_on_failure());
        }
        let v0 = match T0::read_options(reader, options, ()) {
            Ok(v) => v,
            Err(e) => {
                return Err(e);
            },
        };
        let v1 = match T1::read_options(reader, options, ()) {
            Ok(v) => v,
            Err(e) => {
                return Err(e);
            },
        };
        let v2 = match T2::read_options(reader, options, ()) {
            Ok(v) => v,
            Err(e) => {
                return Err(e);
            },
        };
        let v3 = match T3::read_options(reader, options, ()) {
            Ok(v) => v,
            Err(e) => {
                return Err(e);
            },
        };
        let v4 = match T4::read_options(reader, options, ()) {
            Ok(v) => v,
            Err(e) => {
                return Err(e);
            },
        };
        let v5 = match T5::read_options(reader, options, ()) {
            Ok(v) => v,
            Err(e) => {
                return Err(e);
            },
        };
        let v6 = match T6::read_options(reader, options, ()) {
            Ok(v) => v,
            Err(e) => {
                return Err(e);
            },
        };
        let v7 = match T7::read_options(reader, options, ()) {
            Ok(v) => v,
            Err(e) => {
                return Err(e);
            },
        };
        let v8 = match T8::read_options(reader, options, ()) {
            Ok(v) => v,
            Err(e) => {
                return Err(e);
            },
        };
        let v9 = match T9::read_options(reader, options, ()) {
            Ok(v) => v,
            Err(e) => {
                return Err(e);
            },
        };
        let v10 = match T10::read_options(reader, options, ()) {
            Ok(v) => v,
            Err(e) => {
                return Err(e);
            },
        };
        let v11 = match T11::read_options(reader, options, ()) {
            Ok(v) => v,
            Err(e) => {
                return Err(e);
            },
        };
        let v12 = match T12::read_options(reader, options, ()) {
            Ok(v) => v,
            Err(e) => {
                return Err(e);
            },
        };
        let v13 = match T13::read_options(reader, options, ()) {
            Ok(v) => v,
            Err(e) => {
                return Err(e);
            },
        };
        let v14 = match T14::read_options(reader, options, ()) {
            Ok(v) => v,
            Err(e) => {
                return Err(e);
            },
        };
        let v15 = match T15::read_options(reader, options, ()) {
            Ok(v) => v,
            Err(e) => {
                return Err(e);
            },
        };
        let v16 = match T16::read_options(reader, options, ()) {
            Ok(v) => v,
            Err(e) => {
                return Err(e);
            },
        };
        let v17 = match T17::read_options(reader, options, ()) {
            Ok(v) => v,
            Err(e) => {
                return Err(e);
            },
        };
        let v18 = match T18::read_options(reader, options, ()) {
            Ok(v) => v,
            Err(e) => {
                return Err(e);
            },
        };
        let v19 = match T19::read_options(reader, options, ()) {
            Ok(v) => v,
            Err(e) => {
                return Err(e);
            },
        };
        let v20 = match T20::read_options(reader, options, ()) {
            Ok(v) => v,
            Err(e) => {
                return Err(e);
            },
        };
        let v21 = match T21::read_options(reader, options, ()) {
            Ok(v) => v,
            Err(e) => {
                return Err(e);
            },
        };
        let v22 = match T22::read_options(reader, options, ()) {
            Ok(v) => v,
            Err(e) => {
                return Err(e);
            },
        };
        let v23 = match T23::read_options(reader, options, ()) {
            Ok(v) => v,
            Err(e) => {
                return Err(e);
            },
        };
        let v24 = match T24::read_options(reader, options, ()) {
            Ok(v) => v,
            Err(e) => {
                return Err(e);
            },
        };
        let v25 = match T25::read_options(reader, options, ()) {
            Ok(v) => v,
            Err(e) => {
                return Err(e);
            },
        };
        let v26 = match T26::read_options(reader, options, ()) {
            Ok(v) => v,
            Err(e) => {
                return Err(e);
            },
        };
        let v27 = match T27::read_options(reader, options, ()) {
            Ok(v) => v,
            Err(e) => {
                return Err(e);
            },
        };
        Ok((v0, v1, v2, v3, v4, v5, v6, v7, v8, v9, v10, v11, v12, v13, v14, v15, v16, v17, v18, v19, v20, v21, v22, v23, v24, v25, v26, v27))
    }

    fn after_parse(self, reader: &mut Cursor, options: &ReadOptions, args: ()) -> (r: BinResult<
        (T0, T1, T2, T3, T4, T5, T6, T7, T8, T9, T10, T11, T12, T13, T14, T15, T16, T17, T18, T19, T20, T21, T22, T23, T24, T25, T26, T27),
    >) {
        let (x0, x1, x2, x3, x4, x5, x6, x7, x8, x9, x10, x11, x12, x13, x14, x15, x16, x17, x18, x19, x20, x21, x22, x23, x24, x25, x26, x27) = self;
        let v0 = match x0.after_parse(reader, options, ()) {
            Ok(v) => v,
            Err(e) => {
                return Err(e);
            },
        };
        let v1 = match x1.after_parse(reader, options, ()) {
            Ok(v) => v,
            Err(e) => {
                return Err(e);
            },
        };
        let v2 = match x2.after_parse(reader, options, ()) {
            Ok(v) => v,
            Err(e) => {
                return Err(e);
            },
        };
        let v3 = match x3.after_parse(reader, options, ()) {
            Ok(v) => v,
            Err(e) => {
                return Err(e);
            },
        };
        let v4 = match x4.after_parse(reader, options, ()) {
            Ok(v) => v,
            Err(e) => {
                return Err(e);
            },
        };
        let v5 = match x5.after_parse(reader, options, ()) {
            Ok(v) => v,
            Err(e) => {
                return Err(e);
            },
        };
        let v6 = match x6.after_parse(reader, options, ()) {
            Ok(v) => v,
            Err(e) => {
                return Err(e);
            },
        };
        let v7 = match x7.after_parse(reader, options, ()) {
            Ok(v) => v,
            Err(e) => {
                return Err(e);
            },
        };
        let v8 = match x8.after_parse(reader, options, ()) {
            Ok(v) => v,
            Err(e) => {
                return Err(e);
            },
        };
        let v9 = match x9.after_parse(reader, options, ()) {
            Ok(v) => v,
            Err(e) => {
                return Err(e);
            },
        };
        let v10 = match x10.after_parse(reader, options, ()) {
            Ok(v) => v,
            Err(e) => {
                return Err(e);
            },
        };
        let v11 = match x11.after_parse(reader, options, ()) {
            Ok(v) => v,
            Err(e) => {
                return Err(e);
            },
        };
        let v12 = match x12.after_parse(reader, options, ()) {
            Ok(v) => v,
            Err(e) => {
                return Err(e);
            },
        };
        let v13 = match x13.after_parse(reader, options, ()) {
            Ok(v) => v,
            Err(e) => {
                return Err(e);
            },
        };
        let v14 = match x14.after_parse(reader, options, ()) {
            Ok(v) => v,
            Err(e) => {
                return Err(e);
            },
        };
        let v15 = match x15.after_parse(reader, options, ()) {
            Ok(v) => v,
            Err(e) => {
                return Err(e);
            },
        };
        let v16 = match x16.after_parse(reader, options, ()) {
            Ok(v) => v,
            Err(e) => {
                return Err(e);
            },
        };
        let v17 = match x17.after_parse(reader, options, ()) {
            Ok(v) => v,
            Err(e) => {
                return Err(e);
            },
        };
        let v18 = match x18.after_parse(reader, options, ()) {
            Ok(v) => v,
            Err(e) => {
                return Err(e);
            },
        };
        let v19 = match x19.after_parse(reader, options, ()) {
            Ok(v) => v,
            Err(e) => {
                return Err(e);
            },
        };
        let v20 = match x20.after_parse(reader, options, ()) {
            Ok(v) => v,
            Err(e) => {
                return Err(e);
            },
        };
        let v21 = match x21.after_parse(reader, options, ()) {
            Ok(v) => v,
            Err(e) => {
                return Err(e);
            },
        };
        let v22 = match x22.after_parse(reader, options, ()) {
            Ok(v) => v,
            Err(e) => {
                return Err(e);
            },
        };
        let v23 = match x23.after_parse(reader, options, ()) {
            Ok(v) => v,
            Err(e) => {
                return Err(e);
            },
        };
        let v24 = match x24.after_parse(reader, options, ()) {
            Ok(v) => v,
            Err(e) => {
                return Err(e);
            },
        };
        let v25 = match x25.after_parse(reader, options, ()) {
            Ok(v) => v,
            Err(e) => {
                return Err(e);
            },
        };
        let v26 = match x26.after_parse(reader, options, ()) {
            Ok(v) => v,
            Err(e) => {
                return Err(e);
            },
        };
        let v27 = match x27.after_parse(reader, options, ()) {
            Ok(v) => v,
            Err(e) => {
                return Err(e);
            },
        };
        Ok((v0, v1, v2, v3, v4, v5, v6, v7, v8, v9, v10, v11, v12, v13, v14, v15, v16, v17, v18, v19, v20, v21, v22, v23, v24, v25, v26, v27))
    }
}

impl<T0: BinRead<Args = ()>, T1: BinRead<Args = ()>, T2: BinRead<Args = ()>, T3: BinRead<Args = ()>, T4: BinRead<Args = ()>, T5: BinRead<Args = ()>, T6: BinRead<Args = ()>, T7: BinRead<Args = ()>, T8: BinRead<Args = ()>, T9: BinRead<Args = ()>, T10: BinRead<Args = ()>, T11: BinRead<Args = ()>, T12: BinRead<Args = ()>, T13: BinRead<Args = ()>, T14: BinRead<Args = ()>, T15: BinRead<Args = ()>, T16: BinRead<Args = ()>, T17: BinRead<Args = ()>, T18: BinRead<Args = ()>, T19: BinRead<Args = ()>, T20: BinRead<Args = ()>, T21: BinRead<Args = ()>, T22: BinRead<Args = ()>, T23: BinRead<Args = ()>, T24: BinRead<Args = ()>, T25: BinRead<Args = ()>, T26: BinRead<Args = ()>, T27: BinRead<Args = ()>, T28: BinRead<Args = ()>> BinRead for (T0, T1, T2, T3, T4, T5, T6, T7, T8, T9, T10, T11, T12, T13, T14, T15, T16, T17, T18, T19, T20, T21, T22, T23, T24, T25, T26, T27, T28) {
    type Args = ();

    type Model = (T0::Model, T1::Model, T2::Model, T3::Model, T4::Model, T5::Model, T6::Model, T7::Model, T8::Model, T9::Model, T10::Model, T11::Model, T12::Model, T13::Model, T14::Model, T15::Model, T16::Model, T17::Model, T18::Model, T19::Model, T20::Model, T21::Model, T22::Model, T23::Model, T24::Model, T25::Model, T26::Model, T27::Model, T28::Model);

    open spec fn model(self) -> (T0::Model, T1::Model, T2::Model, T3::Model, T4::Model, T5::Model, T6::Model, T7::Model, T8::Model, T9::Model, T10::Model, T11::Model, T12::Model, T13::Model, T14::Model, T15::Model, T16::Model, T17::Model, T18::Model, T19::Model, T20::Model, T21::Model, T22::Model, T23::Model, T24::Model, T25::Model, T26::Model, T27::Model, T28::Model) {
        (self.0.model(), self.1.model(), self.2.model(), self.3.model(), self.4.model(), self.5.model(), self.6.model(), self.7.model(), self.8.model(), self.9.model(), self.10.model(), self.11.model(), self.12.model(), self.13.model(), self.14.model(), self.15.model(), self.16.model(), self.17.model(), self.18.model(), self.19.model(), self.20.model(), self.21.model(), self.22.model(), self.23.model(), self.24.model(), self.25.model(), self.26.model(), self.27.model(), self.28.model())
    }

    open spec fn spec_read(s: StreamView, endian: Endian, args: ()) -> Result<
        ((T0::Model, T1::Model, T2::Model, T3::Model, T4::Model, T5::Model, T6::Model, T7::Model, T8::Model, T9::Model, T10::Model, T11::Model, T12::Model, T13::Model, T14::Model, T15::Model, T16::Model, T17::Model, T18::Model, T19::Model, T20::Model, T21::Model, T22::Model, T23::Model, T24::Model, T25::Model, T26::Model, T27::Model, T28::Model), int),
        Error,
    > {
        match T0::spec_read(s, endian, ()) {
            Err(e) => Err(e),
            Ok((m0, p0)) => {
                match T1::spec_read(StreamView { data: s.data, pos: p0 }, endian, ()) {
                    Err(e) => Err(e),
                    Ok((m1, p1)) => {
                        match T2::spec_read(StreamView { data: s.data, pos: p1 }, endian, ()) {
                            Err(e) => Err(e),
                            Ok((m2, p2)) => {
                                match T3::spec_read(StreamView { data: s.data, pos: p2 }, endian, ()) {
                                    Err(e) => Err(e),
                                    Ok((m3, p3)) => {
                                        match T4::spec_read(StreamView { data: s.data, pos: p3 }, endian, ()) {
                                            Err(e) => Err(e),
                                            Ok((m4, p4)) => {
                                                match T5::spec_read(StreamView { data: s.data, pos: p4 }, endian, ()) {
                                                    Err(e) => Err(e),
                                                    Ok((m5, p5)) => {
                                                        match T6::spec_read(StreamView { data: s.data, pos: p5 }, endian, ()) {
                                                            Err(e) => Err(e),
                                                            Ok((m6, p6)) => {
                                                                match T7::spec_read(StreamView { data: s.data, pos: p6 }, endian, ()) {
                                                                    Err(e) => Err(e),
                                                                    Ok((m7, p7)) => {
                                                                        match T8::spec_read(StreamView { data: s.data, pos: p7 }, endian, ()) {
                                                                            Err(e) => Err(e),
                                                                            Ok((m8, p8)) => {
                                                                                match T9::spec_read(StreamView { data: s.data, pos: p8 }, endian, ()) {
                                                                                    Err(e) => Err(e),
                                                                                    Ok((m9, p9)) => {
                                                                                        match T10::spec_read(StreamView { data: s.data, pos: p9 }, endian, ()) {
                                                                                            Err(e) => Err(e),
                                                                                            Ok((m10, p10)) => {
                                                                                                match T11::spec_read(StreamView { data: s.data, pos: p10 }, endian, ()) {
                                                                                                    Err(e) => Err(e),
                                                                                                    Ok((m11, p11)) => {
                                                                                                        match T12::spec_read(StreamView { data: s.data, pos: p11 }, endian, ()) {
                                                                                                            Err(e) => Err(e),
                                                                                                            Ok((m12, p12)) => {
                                                                                                                match T13::spec_read(StreamView { data: s.data, pos: p12 }, endian, ()) {
                                                                                                                    Err(e) => Err(e),
                                                                                                                    Ok((m13, p13)) => {
                                                                                                                        match T14::spec_read(StreamView { data: s.data, pos: p13 }, endian, ()) {
                                                                                                                            Err(e) => Err(e),
                                                                                                                            Ok((m14, p14)) => {
                                                                                                                                match T15::spec_read(StreamView { data: s.data, pos: p14 }, endian, ()) {
                                                                                                                                    Err(e) => Err(e),
                                                                                                                                    Ok((m15, p15)) => {
                                                                                                                                        match T16::spec_read(StreamView { data: s.data, pos: p15 }, endian, ()) {
                                                                                                                                            Err(e) => Err(e),
                                                                                                                                            Ok((m16, p16)) => {
                                                                                                                                                match T17::spec_read(StreamView { data: s.data, pos: p16 }, endian, ()) {
                                                                                                                                                    Err(e) => Err(e),
                                                                                                                                                    Ok((m17, p17)) => {
                                                                                                                                                        match T18::spec_read(StreamView { data: s.data, pos: p17 }, endian, ()) {
                                                                                                                                                            Err(e) => Err(e),
                                                                                                                                                            Ok((m18, p18)) => {
                                                                                                                                                                match T19::spec_read(StreamView { data: s.data, pos: p18 }, endian, ()) {
                                                                                                                                                                    Err(e) => Err(e),
                                                                                                                                                                    Ok((m19, p19)) => {
                                                                                                                                                                        match T20::spec_read(StreamView { data: s.data, pos: p19 }, endian, ()) {
                                                                                                                                                                            Err(e) => Err(e),
                                                                                                                                                                            Ok((m20, p20)) => {
                                                                                                                                                                                match T21::spec_read(StreamView { data: s.data, pos: p20 }, endian, ()) {
                                                                                                                                                                                    Err(e) => Err(e),
                                                                                                                                                                                    Ok((m21, p21)) => {
                                                                                                                                                                                        match T22::spec_read(StreamView { data: s.data, pos: p21 }, endian, ()) {
                                                                                                                                                                                            Err(e) => Err(e),
                                                                                                                                                                                            Ok((m22, p22)) => {
                                                                                                                                                                                                match T23::spec_read(StreamView { data: s.data, pos: p22 }, endian, ()) {
                                                                                                                                                                                                    Err(e) => Err(e),
                                                                                                                                                                                                    Ok((m23, p23)) => {
                                                                                                                                                                                                        match T24::spec_read(StreamView { data: s.data, pos: p23 }, endian, ()) {
                                                                                                                                                                                                            Err(e) => Err(e),
                                                                                                                                                                                                            Ok((m24, p24)) => {
                                                                                                                                                                                                                match T25::spec_read(StreamView { data: s.data, pos: p24 }, endian, ()) {
                                                                                                                                                                                                                    Err(e) => Err(e),
                                                                                                                                                                                                                    Ok((m25, p25)) => {
                                                                                                                                                                                                                        match T26::spec_read(StreamView { data: s.data, pos: p25 }, endian, ()) {
                                                                                                                                                                                                                            Err(e) => Err(e),
                                                                                                                                                                                                                            Ok((m26, p26)) => {
                                                                                                                                                                                                                                match T27::spec_read(StreamView { data: s.data, pos: p26 }, endian, ()) {
                                                                                                                                                                                                                                    Err(e) => Err(e),
                                                                                                                                                                                                                                    Ok((m27, p27)) => {
                                                                                                                                                                                                                                        match T28::spec_read(StreamView { data: s.data, pos: p27 }, endian, ()) {
                                                                                                                                                                                                                                            Err(e) => Err(e),
                                                                                                                                                                                                                                            Ok((m28, p28)) => Ok(((m0, m1, m2, m3, m4, m5, m6, m7, m8, m9, m10, m11, m12, m13, m14, m15, m16, m17, m18, m19, m20, m21, m22, m23, m24, m25, m26, m27, m28), p28)),
                                                                                                                                                                                                                                        }
                                                                                                                                                                                                                                    },
                                                                                                                                                                                                                                }
                                                                                                                                                                                                                            },
                                                                                                                                                                                                                        }
                                                                                                                                                                                                                    },
                                                                                                                                                                                                                }
                                                                                                                                                                                                            },
                                                                                                                                                                                                        }
                                                                                                                                                                                                    },
                                                                                                                                                                                                }
                                                                                                                                                                                            },
                                                                                                                                                                                        }
                                                                                                                                                                                    },
                                                                                                                                                                                }
                                                                                                                                                                            },
                                                                                                                                                                        }
                                                                                                                                                                    },
                                                                                                                                                                }
                                                                                                                                                            },
                                                                                                                                                        }
                                                                                                                                                    },
                                                                                                                                                }
                                                                                                                                            },
                                                                                                                                        }
                                                                                                                                    },
                                                                                                                                }
                                                                                                                            },
                                                                                                                        }
                                                                                                                    },
                                                                                                                }
                                                                                                            },
                                                                                                        }
                                                                                                    },
                                                                                                }
                                                                                            },
                                                                                        }
                                                                                    },
                                                                                }
                                                                            },
                                                                        }
                                                                    },
                                                                }
                                                            },
                                                        }
                                                    },
                                                }
                                            },
                                        }
                                    },
                                }
                            },
                        }
                    },
                }
            },
        }
    }

    open spec fn spec_after(m: (T0::Model, T1::Model, T2::Model, T3::Model, T4::Model, T5::Model, T6::Model, T7::Model, T8::Model, T9::Model, T10::Model, T11::Model, T12::Model, T13::Model, T14::Model, T15::Model, T16::Model, T17::Model, T18::Model, T19::Model, T20::Model, T21::Model, T22::Model, T23::Model, T24::Model, T25::Model, T26::Model, T27::Model, T28::Model), s: StreamView, endian: Endian, args: ()) -> Result<
        ((T0::Model, T1::Model, T2::Model, T3::Model, T4::Model, T5::Model, T6::Model, T7::Model, T8::Model, T9::Model, T10::Model, T11::Model, T12::Model, T13::Model, T14::Model, T15::Model, T16::Model, T17::Model, T18::Model, T19::Model, T20::Model, T21::Model, T22::Model, T23::Model, T24::Model, T25::Model, T26::Model, T27::Model, T28::Model), int),
        Error,
    > {
        match T0::spec_after(m.0, s, endian, ()) {
            Err(e) => Err(e),
            Ok((m0, p0)) => {
                match T1::spec_after(m.1, StreamView { data: s.data, pos: p0 }, endian, ()) {
                    Err(e) => Err(e),
                    Ok((m1, p1)) => {
                        match T2::spec_after(m.2, StreamView { data: s.data, pos: p1 }, endian, ()) {
                            Err(e) => Err(e),
                            Ok((m2, p2)) => {
                                match T3::spec_after(m.3, StreamView { data: s.data, pos: p2 }, endian, ()) {
                                    Err(e) => Err(e),
                                    Ok((m3, p3)) => {
                                        match T4::spec_after(m.4, StreamView { data: s.data, pos: p3 }, endian, ()) {
                                            Err(e) => Err(e),
                                            Ok((m4, p4)) => {
                                                match T5::spec_after(m.5, StreamView { data: s.data, pos: p4 }, endian, ()) {
                                                    Err(e) => Err(e),
                                                    Ok((m5, p5)) => {
                                                        match T6::spec_after(m.6, StreamView { data: s.data, pos: p5 }, endian, ()) {
                                                            Err(e) => Err(e),
                                                            Ok((m6, p6)) => {
                                                                match T7::spec_after(m.7, StreamView { data: s.data, pos: p6 }, endian, ()) {
                                                                    Err(e) => Err(e),
                                                                    Ok((m7, p7)) => {
                                                                        match T8::spec_after(m.8, StreamView { data: s.data, pos: p7 }, endian, ()) {
                                                                            Err(e) => Err(e),
                                                                            Ok((m8, p8)) => {
                                                                                match T9::spec_after(m.9, StreamView { data: s.data, pos: p8 }, endian, ()) {
                                                                                    Err(e) => Err(e),
                                                                                    Ok((m9, p9)) => {
                                                                                        match T10::spec_after(m.10, StreamView { data: s.data, pos: p9 }, endian, ()) {
                                                                                            Err(e) => Err(e),
                                                                                            Ok((m10, p10)) => {
                                                                                                match T11::spec_after(m.11, StreamView { data: s.data, pos: p10 }, endian, ()) {
                                                                                                    Err(e) => Err(e),
                                                                                                    Ok((m11, p11)) => {
                                                                                                        match T12::spec_after(m.12, StreamView { data: s.data, pos: p11 }, endian, ()) {
                                                                                                            Err(e) => Err(e),
                                                                                                            Ok((m12, p12)) => {
                                                                                                                match T13::spec_after(m.13, StreamView { data: s.data, pos: p12 }, endian, ()) {
                                                                                                                    Err(e) => Err(e),
                                                                                                                    Ok((m13, p13)) => {
                                                                                                                        match T14::spec_after(m.14, StreamView { data: s.data, pos: p13 }, endian, ()) {
                                                                                                                            Err(e) => Err(e),
                                                                                                                            Ok((m14, p14)) => {
                                                                                                                                match T15::spec_after(m.15, StreamView { data: s.data, pos: p14 }, endian, ()) {
                                                                                                                                    Err(e) => Err(e),
                                                                                                                                    Ok((m15, p15)) => {
                                                                                                                                        match T16::spec_after(m.16, StreamView { data: s.data, pos: p15 }, endian, ()) {
                                                                                                                                            Err(e) => Err(e),
                                                                                                                                            Ok((m16, p16)) => {
                                                                                                                                                match T17::spec_after(m.17, StreamView { data: s.data, pos: p16 }, endian, ()) {
                                                                                                                                                    Err(e) => Err(e),
                                                                                                                                                    Ok((m17, p17)) => {
                                                                                                                                                        match T18::spec_after(m.18, StreamView { data: s.data, pos: p17 }, endian, ()) {
                                                                                                                                                            Err(e) => Err(e),
                                                                                                                                                            Ok((m18, p18)) => {
                                                                                                                                                                match T19::spec_after(m.19, StreamView { data: s.data, pos: p18 }, endian, ()) {
                                                                                                                                                                    Err(e) => Err(e),
                                                                                                                                                                    Ok((m19, p19)) => {
                                                                                                                                                                        match T20::spec_after(m.20, StreamView { data: s.data, pos: p19 }, endian, ()) {
                                                                                                                                                                            Err(e) => Err(e),
                                                                                                                                                                            Ok((m20, p20)) => {
                                                                                                                                                                                match T21::spec_after(m.21, StreamView { data: s.data, pos: p20 }, endian, ()) {
                                                                                                                                                                                    Err(e) => Err(e),
                                                                                                                                                                                    Ok((m21, p21)) => {
                                                                                                                                                                                        match T22::spec_after(m.22, StreamView { data: s.data, pos: p21 }, endian, ()) {
                                                                                                                                                                                            Err(e) => Err(e),
                                                                                                                                                                                            Ok((m22, p22)) => {
                                                                                                                                                                                                match T23::spec_after(m.23, StreamView { data: s.data, pos: p22 }, endian, ()) {
                                                                                                                                                                                                    Err(e) => Err(e),
                                                                                                                                                                                                    Ok((m23, p23)) => {
                                                                                                                                                                                                        match T24::spec_after(m.24, StreamView { data: s.data, pos: p23 }, endian, ()) {
                                                                                                                                                                                                            Err(e) => Err(e),
                                                                                                                                                                                                            Ok((m24, p24)) => {
                                                                                                                                                                                                                match T25::spec_after(m.25, StreamView { data: s.data, pos: p24 }, endian, ()) {
                                                                                                                                                                                                                    Err(e) => Err(e),
                                                                                                                                                                                                                    Ok((m25, p25)) => {
                                                                                                                                                                                                                        match T26::spec_after(m.26, StreamView { data: s.data, pos: p25 }, endian, ()) {
                                                                                                                                                                                                                            Err(e) => Err(e),
                                                                                                                                                                                                                            Ok((m26, p26)) => {
                                                                                                                                                                                                                                match T27::spec_after(m.27, StreamView { data: s.data, pos: p26 }, endian, ()) {
                                                                                                                                                                                                                                    Err(e) => Err(e),
                                                                                                                                                                                                                                    Ok((m27, p27)) => {
                                                                                                                                                                                                                                        match T28::spec_after(m.28, StreamView { data: s.data, pos: p27 }, endian, ()) {
                                                                                                                                                                                                                                            Err(e) => Err(e),
                                                                                                                                                                                                                                            Ok((m28, p28)) => Ok(((m0, m1, m2, m3, m4, m5, m6, m7, m8, m9, m10, m11, m12, m13, m14, m15, m16, m17, m18, m19, m20, m21, m22, m23, m24, m25, m26, m27, m28), p28)),
                                                                                                                                                                                                                                        }
                                                                                                                                                                                                                                    },
                                                                                                                                                                                                                                }
                                                                                                                                                                                                                            },
                                                                                                                                                                                                                        }
                                                                                                                                                                                                                    },
                                                                                                                                                                                                                }
                                                                                                                                                                                                            },
                                                                                                                                                                                                        }
                                                                                                                                                                                                    },
                                                                                                                                                                                                }
                                                                                                                                                                                            },
                                                                                                                                                                                        }
                                                                                                                                                                                    },
                                                                                                                                                                                }
                                                                                                                                                                            },
                                                                                                                                                                        }
                                                                                                                                                                    },
                                                                                                                                                                }
                                                                                                                                                            },
                                                                                                                                                        }
                                                                                                                                                    },
                                                                                                                                                }
                                                                                                                                            },
                                                                                                                                        }
                                                                                                                                    },
                                                                                                                                }
                                                                                                                            },
                                                                                                                        }
                                                                                                                    },
                                                                                                                }
                                                                                                            },
                                                                                                        }
                                                                                                    },
                                                                                                }
                                                                                            },
                                                                                        }
                                                                                    },
                                                                                }
                                                                            },
                                                                        }
                                                                    },
                                                                }
                                                            },
                                                        }
                                                    },
                                                }
                                            },
                                        }
                                    },
                                }
                            },
                        }
                    },
                }
            },
        }
    }

    open spec fn restores_on_failure() -> bool {
        false
    }

    fn read_options(reader: &mut Cursor, options: &ReadOptions, args: ()) -> (r: BinResult<
        (T0, T1, T2, T3, T4, T5, T6, T7, T8, T9, T10, T11, T12, T13, T14, T15, T16, T17, T18, T19, T20, T21, T22, T23, T24, T25, T26, T27, T28),
    >) {
        proof {
            assert(!Self::restores_on_failure());
        }
        let v0 = match T0::read_options(reader, options, ()) {
            Ok(v) => v,
            Err(e) => {
                return Err(e);
            },
        };
        let v1 = match T1::read_options(reader, options, ()) {
            Ok(v) => v,
            Err(e) => {
                return Err(e);
            },
        };
        let v2 = match T2::read_options(reader, options, ()) {
            Ok(v) => v,
            Err(e) => {
                return Err(e);
            },
        };
        let v3 = match T3::read_options(reader, options, ()) {
            Ok(v) => v,
            Err(e) => {
                return Err(e);
            },
        };
        let v4 = match T4::read_options(reader, options, ()) {
            Ok(v) => v,
            Err(e) => {
                return Err(e);
            },
        };
        let v5 = match T5::read_options(reader, options, ()) {
            Ok(v) => v,
            Err(e) => {
                return Err(e);
            },
        };
        let v6 = match T6::read_options(reader, options, ()) {
            Ok(v) => v,
            Err(e) => {
                return Err(e);
            },
        };
        let v7 = match T7::read_options(reader, options, ()) {
            Ok(v) => v,
            Err(e) => {
                return Err(e);
            },
        };
        let v8 = match T8::read_options(reader, options, ()) {
            Ok(v) => v,
            Err(e) => {
                return Err(e);
            },
        };
        let v9 = match T9::read_options(reader, options, ()) {
            Ok(v) => v,
            Err(e) => {
                return Err(e);
            },
        };
        let v10 = match T10::read_options(reader, options, ()) {
            Ok(v) => v,
            Err(e) => {
                return Err(e);
            },
        };
        let v11 = match T11::read_options(reader, options, ()) {
            Ok(v) => v,
            Err(e) => {
                return Err(e);
            },
        };
        let v12 = match T12::read_options(reader, options, ()) {
            Ok(v) => v,
            Err(e) => {
                return Err(e);
            },
        };
        let v13 = match T13::read_options(reader, options, ()) {
            Ok(v) => v,
            Err(e) => {
                return Err(e);
            },
        };
        let v14 = match T14::read_options(reader, options, ()) {
            Ok(v) => v,
            Err(e) => {
                return Err(e);
            },
        };
        let v15 = match T15::read_options(reader, options, ()) {
            Ok(v) => v,
            Err(e) => {
                return Err(e);
            },
        };
        let v16 = match T16::read_options(reader, options, ()) {
            Ok(v) => v,
            Err(e) => {
                return Err(e);
            },
        };
        let v17 = match T17::read_options(reader, options, ()) {
            Ok(v) => v,
            Err(e) => {
                return Err(e);
            },
        };
        let v18 = match T18::read_options(reader, options, ()) {
            Ok(v) => v,
            Err(e) => {
                return Err(e);
            },
        };
        let v19 = match T19::read_options(reader, options, ()) {
            Ok(v) => v,
            Err(e) => {
                return Err(e);
            },
        };
        let v20 = match T20::read_options(reader, options, ()) {
            Ok(v) => v,
            Err(e) => {
                return Err(e);
            },
        };
        let v21 = match T21::read_options(reader, options, ()) {
            Ok(v) => v,
            Err(e) => {
                return Err(e);
            },
        };
        let v22 = match T22::read_options(reader, options, ()) {
            Ok(v) => v,
            Err(e) => {
                return Err(e);
            },
        };
        let v23 = match T23::read_options(reader, options, ()) {
            Ok(v) => v,
            Err(e) => {
                return Err(e);
            },
        };
        let v24 = match T24::read_options(reader, options, ()) {
            Ok(v) => v,
            Err(e) => {
                return Err(e);
            },
        };
        let v25 = match T25::read_options(reader, options, ()) {
            Ok(v) => v,
            Err(e) => {
                return Err(e);
            },
        };
        let v26 = match T26::read_options(reader, options, ()) {
            Ok(v) => v,
            Err(e) => {
                return Err(e);
            },
        };
        let v27 = match T27::read_options(reader, options, ()) {
            Ok(v) => v,
            Err(e) => {
                return Err(e);
            },
        };
        let v28 = match T28::read_options(reader, options, ()) {
            Ok(v) => v,
            Err(e) => {
                return Err(e);
            },
        };
        Ok((v0, v1, v2, v3, v4, v5, v6, v7, v8, v9, v10, v11, v12, v13, v14, v15, v16, v17, v18, v19, v20, v21, v22, v23, v24, v25, v26, v27, v28))
    }

    fn after_parse(self, reader: &mut Cursor, options: &ReadOptions, args: ()) -> (r: BinResult<
        (T0, T1, T2, T3, T4, T5, T6, T7, T8, T9, T10, T11, T12, T13, T14, T15, T16, T17, T18, T19, T20, T21, T22, T23, T24, T25, T26, T27, T28),
    >) {
        let (x0, x1, x2, x3, x4, x5, x6, x7, x8, x9, x10, x11, x12, x13, x14, x15, x16, x17, x18, x19, x20, x21, x22, x23, x24, x25, x26, x27, x28) = self;
        let v0 = match x0.after_parse(reader, options, ()) {
            Ok(v) => v,
            Err(e) => {
                return Err(e);
            },
        };
        let v1 = match x1.after_parse(reader, options, ()) {
            Ok(v) => v,
            Err(e) => {
                return Err(e);
            },
        };
        let v2 = match x2.after_parse(reader, options, ()) {
            Ok(v) => v,
            Err(e) => {
                return Err(e);
            },
        };
        let v3 = match x3.after_parse(reader, options, ()) {
            Ok(v) => v,
            Err(e) => {
                return Err(e);
            },
        };
        let v4 = match x4.after_parse(reader, options, ()) {
            Ok(v) => v,
            Err(e) => {
                return Err(e);
            },
        };
        let v5 = match x5.after_parse(reader, options, ()) {
            Ok(v) => v,
            Err(e) => {
                return Err(e);
            },
        };
        let v6 = match x6.after_parse(reader, options, ()) {
            Ok(v) => v,
            Err(e) => {
                return Err(e);
            },
        };
        let v7 = match x7.after_parse(reader, options, ()) {
            Ok(v) => v,
            Err(e) => {
                return Err(e);
            },
        };
        let v8 = match x8.after_parse(reader, options, ()) {
            Ok(v) => v,
            Err(e) => {
                return Err(e);
            },
        };
        let v9 = match x9.after_parse(reader, options, ()) {
            Ok(v) => v,
            Err(e) => {
                return Err(e);
            },
        };
        let v10 = match x10.after_parse(reader, options, ()) {
            Ok(v) => v,
            Err(e) => {
                return Err(e);
            },
        };
        let v11 = match x11.after_parse(reader, options, ()) {
            Ok(v) => v,
            Err(e) => {
                return Err(e);
            },
        };
        let v12 = match x12.after_parse(reader, options, ()) {
            Ok(v) => v,
            Err(e) => {
                return Err(e);
            },
        };
        let v13 = match x13.after_parse(reader, options, ()) {
            Ok(v) => v,
            Err(e) => {
                return Err(e);
            },
        };
        let v14 = match x14.after_parse(reader, options, ()) {
            Ok(v) => v,
            Err(e) => {
                return Err(e);
            },
        };
        let v15 = match x15.after_parse(reader, options, ()) {
            Ok(v) => v,
            Err(e) => {
                return Err(e);
            },
        };
        let v16 = match x16.after_parse(reader, options, ()) {
            Ok(v) => v,
            Err(e) => {
                return Err(e);
            },
        };
        let v17 = match x17.after_parse(reader, options, ()) {
            Ok(v) => v,
            Err(e) => {
                return Err(e);
            },
        };
        let v18 = match x18.after_parse(reader, options, ()) {
            Ok(v) => v,
            Err(e) => {
                return Err(e);
            },
        };
        let v19 = match x19.after_parse(reader, options, ()) {
            Ok(v) => v,
            Err(e) => {
                return Err(e);
            },
        };
        let v20 = match x20.after_parse(reader, options, ()) {
            Ok(v) => v,
            Err(e) => {
                return Err(e);
            },
        };
        let v21 = match x21.after_parse(reader, options, ()) {
            Ok(v) => v,
            Err(e) => {
                return Err(e);
            },
        };
        let v22 = match x22.after_parse(reader, options, ()) {
            Ok(v) => v,
            Err(e) => {
                return Err(e);
            },
        };
        let v23 = match x23.after_parse(reader, options, ()) {
            Ok(v) => v,
            Err(e) => {
                return Err(e);
            },
        };
        let v24 = match x24.after_parse(reader, options, ()) {
            Ok(v) => v,
            Err(e) => {
                return Err(e);
            },
        };
        let v25 = match x25.after_parse(reader, options, ()) {
            Ok(v) => v,
            Err(e) => {
                return Err(e);
            },
        };
        let v26 = match x26.after_parse(reader, options, ()) {
            Ok(v) => v,
            Err(e) => {
                return Err(e);
            },
        };
        let v27 = match x27.after_parse(reader, options, ()) {
            Ok(v) => v,
            Err(e) => {
                return Err(e);
            },
        };
        let v28 = match x28.after_parse(reader, options, ()) {
            Ok(v) => v,
            Err(e) => {
                return Err(e);
            },
        };
        Ok((v0, v1, v2, v3, v4, v5, v6, v7, v8, v9, v10, v11, v12, v13, v14, v15, v16, v17, v18, v19, v20, v21, v22, v23, v24, v25, v26, v27, v28))
    }
}

impl<T0: BinRead<Args = ()>, T1: BinRead<Args = ()>, T2: BinRead<Args = ()>, T3: BinRead<Args = ()>, T4: BinRead<Args = ()>, T5: BinRead<Args = ()>, T6: BinRead<Args = ()>, T7: BinRead<Args = ()>, T8: BinRead<Args = ()>, T9: BinRead<Args = ()>, T10: BinRead<Args = ()>, T11: BinRead<Args = ()>, T12: BinRead<Args = ()>, T13: BinRead<Args = ()>, T14: BinRead<Args = ()>, T15: BinRead<Args = ()>, T16: BinRead<Args = ()>, T17: BinRead<Args = ()>, T18: BinRead<Args = ()>, T19: BinRead<Args = ()>, T20: BinRead<Args = ()>, T21: BinRead<Args = ()>, T22: BinRead<Args = ()>, T23: BinRead<Args = ()>, T24: BinRead<Args = ()>, T25: BinRead<Args = ()>, T26: BinRead<Args = ()>, T27: BinRead<Args = ()>, T28: BinRead<Args = ()>, T29: BinRead<Args = ()>> BinRead for (T0, T1, T2, T3, T4, T5, T6, T7, T8, T9, T10, T11, T12, T13, T14, T15, T16, T17, T18, T19, T20, T21, T22, T23, T24, T25, T26, T27, T28, T29) {
    type Args = ();

    type Model = (T0::Model, T1::Model, T2::Model, T3::Model, T4::Model, T5::Model, T6::Model, T7::Model, T8::Model, T9::Model, T10::Model, T11::Model, T12::Model, T13::Model, T14::Model, T15::Model, T16::Model, T17::Model, T18::Model, T19::Model, T20::Model, T21::Model, T22::Model, T23::Model, T24::Model, T25::Model, T26::Model, T27::Model, T28::Model, T29::Model);

    open spec fn model(self) -> (T0::Model, T1::Model, T2::Model, T3::Model, T4::Model, T5::Model, T6::Model, T7::Model, T8::Model, T9::Model, T10::Model, T11::Model, T12::Model, T13::Model, T14::Model, T15::Model, T16::Model, T17::Model, T18::Model, T19::Model, T20::Model, T21::Model, T22::Model, T23::Model, T24::Model, T25::Model, T26::Model, T27::Model, T28::Model, T29::Model) {
        (self.0.model(), self.1.model(), self.2.model(), self.3.model(), self.4.model(), self.5.model(), self.6.model(), self.7.model(), self.8.model(), self.9.model(), self.10.model(), self.11.model(), self.12.model(), self.13.model(), self.14.model(), self.15.model(), self.16.model(), self.17.model(), self.18.model(), self.19.model(), self.20.model(), self.21.model(), self.22.model(), self.23.model(), self.24.model(), self.25.model(), self.26.model(), self.27.model(), self.28.model(), self.29.model())
    }

    open spec fn spec_read(s: StreamView, endian: Endian, args: ()) -> Result<
        ((T0::Model, T1::Model, T2::Model, T3::Model, T4::Model, T5::Model, T6::Model, T7::Model, T8::Model, T9::Model, T10::Model, T11::Model, T12::Model, T13::Model, T14::Model, T15::Model, T16::Model, T17::Model, T18::Model, T19::Model, T20::Model, T21::Model, T22::Model, T23::Model, T24::Model, T25::Model, T26::Model, T27::Model, T28::Model, T29::Model), int),
        Error,
    > {
        match T0::spec_read(s, endian, ()) {
            Err(e) => Err(e),
            Ok((m0, p0)) => {
                match T1::spec_read(StreamView { data: s.data, pos: p0 }, endian, ()) {
                    Err(e) => Err(e),
                    Ok((m1, p1)) => {
                        match T2::spec_read(StreamView { data: s.data, pos: p1 }, endian, ()) {
                            Err(e) => Err(e),
                            Ok((m2, p2)) => {
                                match T3::spec_read(StreamView { data: s.data, pos: p2 }, endian, ()) {
                                    Err(e) => Err(e),
                                    Ok((m3, p3)) => {
                                        match T4::spec_read(StreamView { data: s.data, pos: p3 }, endian, ()) {
                                            Err(e) => Err(e),
                                            Ok((m4, p4)) => {
                                                match T5::spec_read(StreamView { data: s.data, pos: p4 }, endian, ()) {
                                                    Err(e) => Err(e),
                                                    Ok((m5, p5)) => {
                                                        match T6::spec_read(StreamView { data: s.data, pos: p5 }, endian, ()) {
                                                            Err(e) => Err(e),
                                                            Ok((m6, p6)) => {
                                                                match T7::spec_read(StreamView { data: s.data, pos: p6 }, endian, ()) {
                                                                    Err(e) => Err(e),
                                                                    Ok((m7, p7)) => {
                                                                        match T8::spec_read(StreamView { data: s.data, pos: p7 }, endian, ()) {
                                                                            Err(e) => Err(e),
                                                                            Ok((m8, p8)) => {
                                                                                match T9::spec_read(StreamView { data: s.data, pos: p8 }, endian, ()) {
                                                                                    Err(e) => Err(e),
                                                                                    Ok((m9, p9)) => {
                                                                                        match T10::spec_read(StreamView { data: s.data, pos: p9 }, endian, ()) {
                                                                                            Err(e) => Err(e),
                                                                                            Ok((m10, p10)) => {
                                                                                                match T11::spec_read(StreamView { data: s.data, pos: p10 }, endian, ()) {
                                                                                                    Err(e) => Err(e),
                                                                                                    Ok((m11, p11)) => {
                                                                                                        match T12::spec_read(StreamView { data: s.data, pos: p11 }, endian, ()) {
                                                                                                            Err(e) => Err(e),
                                                                                                            Ok((m12, p12)) => {
                                                                                                                match T13::spec_read(StreamView { data: s.data, pos: p12 }, endian, ()) {
                                                                                                                    Err(e) => Err(e),
                                                                                                                    Ok((m13, p13)) => {
                                                                                                                        match T14::spec_read(StreamView { data: s.data, pos: p13 }, endian, ()) {
                                                                                                                            Err(e) => Err(e),
                                                                                                                            Ok((m14, p14)) => {
                                                                                                                                match T15::spec_read(StreamView { data: s.data, pos: p14 }, endian, ()) {
                                                                                                                                    Err(e) => Err(e),
                                                                                                                                    Ok((m15, p15)) => {
                                                                                                                                        match T16::spec_read(StreamView { data: s.data, pos: p15 }, endian, ()) {
                                                                                                                                            Err(e) => Err(e),
                                                                                                                                            Ok((m16, p16)) => {
                                                                                                                                                match T17::spec_read(StreamView { data: s.data, pos: p16 }, endian, ()) {
                                                                                                                                                    Err(e) => Err(e),
                                                                                                                                                    Ok((m17, p17)) => {
                                                                                                                                                        match T18::spec_read(StreamView { data: s.data, pos: p17 }, endian, ()) {
                                                                                                                                                            Err(e) => Err(e),
                                                                                                                                                            Ok((m18, p18)) => {
                                                                                                                                                                match T19::spec_read(StreamView { data: s.data, pos: p18 }, endian, ()) {
                                                                                                                                                                    Err(e) => Err(e),
                                                                                                                                                                    Ok((m19, p19)) => {
                                                                                                                                                                        match T20::spec_read(StreamView { data: s.data, pos: p19 }, endian, ()) {
                                                                                                                                                                            Err(e) => Err(e),
                                                                                                                                                                            Ok((m20, p20)) => {
                                                                                                                                                                                match T21::spec_read(StreamView { data: s.data, pos: p20 }, endian, ()) {
                                                                                                                                                                                    Err(e) => Err(e),
                                                                                                                                                                                    Ok((m21, p21)) => {
                                                                                                                                                                                        match T22::spec_read(StreamView { data: s.data, pos: p21 }, endian, ()) {
                                                                                                                                                                                            Err(e) => Err(e),
                                                                                                                                                                                            Ok((m22, p22)) => {
                                                                                                                                                                                                match T23::spec_read(StreamView { data: s.data, pos: p22 }, endian, ()) {
                                                                                                                                                                                                    Err(e) => Err(e),
                                                                                                                                                                                                    Ok((m23, p23)) => {
                                                                                                                                                                                                        match T24::spec_read(StreamView { data: s.data, pos: p23 }, endian, ()) {
                                                                                                                                                                                                            Err(e) => Err(e),
                                                                                                                                                                                                            Ok((m24, p24)) => {
                                                                                                                                                                                                                match T25::spec_read(StreamView { data: s.data, pos: p24 }, endian, ()) {
                                                                                                                                                                                                                    Err(e) => Err(e),
                                                                                                                                                                                                                    Ok((m25, p25)) => {
                                                                                                                                                                                                                        match T26::spec_read(StreamView { data: s.data, pos: p25 }, endian, ()) {
                                                                                                                                                                                                                            Err(e) => Err(e),
                                                                                                                                                                                                                            Ok((m26, p26)) => {
                                                                                                                                                                                                                                match T27::spec_read(StreamView { data: s.data, pos: p26 }, endian, ()) {
                                                                                                                                                                                                                                    Err(e) => Err(e),
                                                                                                                                                                                                                                    Ok((m27, p27)) => {
                                                                                                                                                                                                                                        match T28::spec_read(StreamView { data: s.data, pos: p27 }, endian, ()) {
                                                                                                                                                                                                                                            Err(e) => Err(e),
                                                                                                                                                                                                                                            Ok((m28, p28)) => {
                                                                                                                                                                                                                                                match T29::spec_read(StreamView { data: s.data, pos: p28 }, endian, ()) {
                                                                                                                                                                                                                                                    Err(e) => Err(e),
                                                                                                                                                                                                                                                    Ok((m29, p29)) => Ok(((m0, m1, m2, m3, m4, m5, m6, m7, m8, m9, m10, m11, m12, m13, m14, m15, m16, m17, m18, m19, m20, m21, m22, m23, m24, m25, m26, m27, m28, m29), p29)),
                                                                                                                                                                                                                                                }
                                                                                                                                                                                                                                            },
                                                                                                                                                                                                                                        }
                                                                                                                                                                                                                                    },
                                                                                                                                                                                                                                }
                                                                                                                                                                                                                            },
                                                                                                                                                                                                                        }
                                                                                                                                                                                                                    },
                                                                                                                                                                                                                }
                                                                                                                                                                                                            },
                                                                                                                                                                                                        }
                                                                                                                                                                                                    },
                                                                                                                                                                                                }
                                                                                                                                                                                            },
                                                                                                                                                                                        }
                                                                                                                                                                                    },
                                                                                                                                                                                }
                                                                                                                                                                            },
                                                                                                                                                                        }
                                                                                                                                                                    },
                                                                                                                                                                }
                                                                                                                                                            },
                                                                                                                                                        }
                                                                                                                                                    },
                                                                                                                                                }
                                                                                                                                            },
                                                                                                                                        }
                                                                                                                                    },
                                                                                                                                }
                                                                                                                            },
                                                                                                                        }
                                                                                                                    },
                                                                                                                }
                                                                                                            },
                                                                                                        }
                                                                                                    },
                                                                                                }
                                                                                            },
                                                                                        }
                                                                                    },
                                                                                }
                                                                            },
                                                                        }
                                                                    },
                                                                }
                                                            },
                                                        }
                                                    },
                                                }
                                            },
                                        }
                                    },
                                }
                            },
                        }
                    },
                }
            },
        }
    }

    open spec fn spec_after(m: (T0::Model, T1::Model, T2::Model, T3::Model, T4::Model, T5::Model, T6::Model, T7::Model, T8::Model, T9::Model, T10::Model, T11::Model, T12::Model, T13::Model, T14::Model, T15::Model, T16::Model, T17::Model, T18::Model, T19::Model, T20::Model, T21::Model, T22::Model, T23::Model, T24::Model, T25::Model, T26::Model, T27::Model, T28::Model, T29::Model), s: StreamView, endian: Endian, args: ()) -> Result<
        ((T0::Model, T1::Model, T2::Model, T3::Model, T4::Model, T5::Model, T6::Model, T7::Model, T8::Model, T9::Model, T10::Model, T11::Model, T12::Model, T13::Model, T14::Model, T15::Model, T16::Model, T17::Model, T18::Model, T19::Model, T20::Model, T21::Model, T22::Model, T23::Model, T24::Model, T25::Model, T26::Model, T27::Model, T28::Model, T29::Model), int),
        Error,
    > {
        match T0::spec_after(m.0, s, endian, ()) {
            Err(e) => Err(e),
            Ok((m0, p0)) => {
                match T1::spec_after(m.1, StreamView { data: s.data, pos: p0 }, endian, ()) {
                    Err(e) => Err(e),
                    Ok((m1, p1)) => {
                        match T2::spec_after(m.2, StreamView { data: s.data, pos: p1 }, endian, ()) {
                            Err(e) => Err(e),
                            Ok((m2, p2)) => {
                                match T3::spec_after(m.3, StreamView { data: s.data, pos: p2 }, endian, ()) {
                                    Err(e) => Err(e),
                                    Ok((m3, p3)) => {
                                        match T4::spec_after(m.4, StreamView { data: s.data, pos: p3 }, endian, ()) {
                                            Err(e) => Err(e),
                                            Ok((m4, p4)) => {
                                                match T5::spec_after(m.5, StreamView { data: s.data, pos: p4 }, endian, ()) {
                                                    Err(e) => Err(e),
                                                    Ok((m5, p5)) => {
                                                        match T6::spec_after(m.6, StreamView { data: s.data, pos: p5 }, endian, ()) {
                                                            Err(e) => Err(e),
                                                            Ok((m6, p6)) => {
                                                                match T7::spec_after(m.7, StreamView { data: s.data, pos: p6 }, endian, ()) {
                                                                    Err(e) => Err(e),
                                                                    Ok((m7, p7)) => {
                                                                        match T8::spec_after(m.8, StreamView { data: s.data, pos: p7 }, endian, ()) {
                                                                            Err(e) => Err(e),
                                                                            Ok((m8, p8)) => {
                                                                                match T9::spec_after(m.9, StreamView { data: s.data, pos: p8 }, endian, ()) {
                                                                                    Err(e) => Err(e),
                                                                                    Ok((m9, p9)) => {
                                                                                        match T10::spec_after(m.10, StreamView { data: s.data, pos: p9 }, endian, ()) {
                                                                                            Err(e) => Err(e),
                                                                                            Ok((m10, p10)) => {
                                                                                                match T11::spec_after(m.11, StreamView { data: s.data, pos: p10 }, endian, ()) {
                                                                                                    Err(e) => Err(e),
                                                                                                    Ok((m11, p11)) => {
                                                                                                        match T12::spec_after(m.12, StreamView { data: s.data, pos: p11 }, endian, ()) {
                                                                                                            Err(e) => Err(e),
                                                                                                            Ok((m12, p12)) => {
                                                                                                                match T13::spec_after(m.13, StreamView { data: s.data, pos: p12 }, endian, ()) {
                                                                                                                    Err(e) => Err(e),
                                                                                                                    Ok((m13, p13)) => {
                                                                                                                        match T14::spec_after(m.14, StreamView { data: s.data, pos: p13 }, endian, ()) {
                                                                                                                            Err(e) => Err(e),
                                                                                                                            Ok((m14, p14)) => {
                                                                                                                                match T15::spec_after(m.15, StreamView { data: s.data, pos: p14 }, endian, ()) {
                                                                                                                                    Err(e) => Err(e),
                                                                                                                                    Ok((m15, p15)) => {
                                                                                                                                        match T16::spec_after(m.16, StreamView { data: s.data, pos: p15 }, endian, ()) {
                                                                                                                                            Err(e) => Err(e),
                                                                                                                                            Ok((m16, p16)) => {
                                                                                                                                                match T17::spec_after(m.17, StreamView { data: s.data, pos: p16 }, endian, ()) {
                                                                                                                                                    Err(e) => Err(e),
                                                                                                                                                    Ok((m17, p17)) => {
                                                                                                                                                        match T18::spec_after(m.18, StreamView { data: s.data, pos: p17 }, endian, ()) {
                                                                                                                                                            Err(e) => Err(e),
                                                                                                                                                            Ok((m18, p18)) => {
                                                                                                                                                                match T19::spec_after(m.19, StreamView { data: s.data, pos: p18 }, endian, ()) {
                                                                                                                                                                    Err(e) => Err(e),
                                                                                                                                                                    Ok((m19, p19)) => {
                                                                                                                                                                        match T20::spec_after(m.20, StreamView { data: s.data, pos: p19 }, endian, ()) {
                                                                                                                                                                            Err(e) => Err(e),
                                                                                                                                                                            Ok((m20, p20)) => {
                                                                                                                                                                                match T21::spec_after(m.21, StreamView { data: s.data, pos: p20 }, endian, ()) {
                                                                                                                                                                                    Err(e) => Err(e),
                                                                                                                                                                                    Ok((m21, p21)) => {
                                                                                                                                                                                        match T22::spec_after(m.22, StreamView { data: s.data, pos: p21 }, endian, ()) {
                                                                                                                                                                                            Err(e) => Err(e),
                                                                                                                                                                                            Ok((m22, p22)) => {
                                                                                                                                                                                                match T23::spec_after(m.23, StreamView { data: s.data, pos: p22 }, endian, ()) {
                                                                                                                                                                                                    Err(e) => Err(e),
                                                                                                                                                                                                    Ok((m23, p23)) => {
                                                                                                                                                                                                        match T24::spec_after(m.24, StreamView { data: s.data, pos: p23 }, endian, ()) {
                                                                                                                                                                                                            Err(e) => Err(e),
                                                                                                                                                                                                            Ok((m24, p24)) => {
                                                                                                                                                                                                                match T25::spec_after(m.25, StreamView { data: s.data, pos: p24 }, endian, ()) {
                                                                                                                                                                                                                    Err(e) => Err(e),
                                                                                                                                                                                                                    Ok((m25, p25)) => {
                                                                                                                                                                                                                        match T26::spec_after(m.26, StreamView { data: s.data, pos: p25 }, endian, ()) {
                                                                                                                                                                                                                            Err(e) => Err(e),
                                                                                                                                                                                                                            Ok((m26, p26)) => {
                                                                                                                                                                                                                                match T27::spec_after(m.27, StreamView { data: s.data, pos: p26 }, endian, ()) {
                                                                                                                                                                                                                                    Err(e) => Err(e),
                                                                                                                                                                                                                                    Ok((m27, p27)) => {
                                                                                                                                                                                                                                        match T28::spec_after(m.28, StreamView { data: s.data, pos: p27 }, endian, ()) {
                                                                                                                                                                                                                                            Err(e) => Err(e),
                                                                                                                                                                                                                                            Ok((m28, p28)) => {
                                                                                                                                                                                                                                                match T29::spec_after(m.29, StreamView { data: s.data, pos: p28 }, endian, ()) {
                                                                                                                                                                                                                                                    Err(e) => Err(e),
                                                                                                                                                                                                                                                    Ok((m29, p29)) => Ok(((m0, m1, m2, m3, m4, m5, m6, m7, m8, m9, m10, m11, m12, m13, m14, m15, m16, m17, m18, m19, m20, m21, m22, m23, m24, m25, m26, m27, m28, m29), p29)),
                                                                                                                                                                                                                                                }
                                                                                                                                                                                                                                            },
                                                                                                                                                                                                                                        }
                                                                                                                                                                                                                                    },
                                                                                                                                                                                                                                }
                                                                                                                                                                                                                            },
                                                                                                                                                                                                                        }
                                                                                                                                                                                                                    },
                                                                                                                                                                                                                }
                                                                                                                                                                                                            },
                                                                                                                                                                                                        }
                                                                                                                                                                                                    },
                                                                                                                                                                                                }
                                                                                                                                                                                            },
                                                                                                                                                                                        }
                                                                                                                                                                                    },
                                                                                                                                                                                }
                                                                                                                                                                            },
                                                                                                                                                                        }
                                                                                                                                                                    },
                                                                                                                                                                }
                                                                                                                                                            },
                                                                                                                                                        }
                                                                                                                                                    },
                                                                                                                                                }
                                                                                                                                            },
                                                                                                                                        }
                                                                                                                                    },
                                                                                                                                }
                                                                                                                            },
                                                                                                                        }
                                                                                                                    },
                                                                                                                }
                                                                                                            },
                                                                                                        }
                                                                                                    },
                                                                                                }
                                                                                            },
                                                                                        }
                                                                                    },
                                                                                }
                                                                            },
                                                                        }
                                                                    },
                                                                }
                                                            },
                                                        }
                                                    },
                                                }
                                            },
                                        }
                                    },
                                }
                            },
                        }
                    },
                }
            },
        }
    }

    open spec fn restores_on_failure() -> bool {
        false
    }

    fn read_options(reader: &mut Cursor, options: &ReadOptions, args: ()) -> (r: BinResult<
        (T0, T1, T2, T3, T4, T5, T6, T7, T8, T9, T10, T11, T12, T13, T14, T15, T16, T17, T18, T19, T20, T21, T22, T23, T24, T25, T26, T27, T28, T29),
    >) {
        proof {
            assert(!Self::restores_on_failure());
        }
        let v0 = match T0::read_options(reader, options, ()) {
            Ok(v) => v,
            Err(e) => {
                return Err(e);
            },
        };
        let v1 = match T1::read_options(reader, options, ()) {
            Ok(v) => v,
            Err(e) => {
                return Err(e);
            },
        };
        let v2 = match T2::read_options(reader, options, ()) {
            Ok(v) => v,
            Err(e) => {
                return Err(e);
            },
        };
        let v3 = match T3::read_options(reader, options, ()) {
            Ok(v) => v,
            Err(e) => {
                return Err(e);
            },
        };
        let v4 = match T4::read_options(reader, options, ()) {
            Ok(v) => v,
            Err(e) => {
                return Err(e);
            },
        };
        let v5 = match T5::read_options(reader, options, ()) {
            Ok(v) => v,
            Err(e) => {
                return Err(e);
            },
        };
        let v6 = match T6::read_options(reader, options, ()) {
            Ok(v) => v,
            Err(e) => {
                return Err(e);
            },
        };
        let v7 = match T7::read_options(reader, options, ()) {
            Ok(v) => v,
            Err(e) => {
                return Err(e);
            },
        };
        let v8 = match T8::read_options(reader, options, ()) {
            Ok(v) => v,
            Err(e) => {
                return Err(e);
            },
        };
        let v9 = match T9::read_options(reader, options, ()) {
            Ok(v) => v,
            Err(e) => {
                return Err(e);
            },
        };
        let v10 = match T10::read_options(reader, options, ()) {
            Ok(v) => v,
            Err(e) => {
                return Err(e);
            },
        };
        let v11 = match T11::read_options(reader, options, ()) {
            Ok(v) => v,
            Err(e) => {
                return Err(e);
            },
        };
        let v12 = match T12::read_options(reader, options, ()) {
            Ok(v) => v,
            Err(e) => {
                return Err(e);
            },
        };
        let v13 = match T13::read_options(reader, options, ()) {
            Ok(v) => v,
            Err(e) => {
                return Err(e);
            },
        };
        let v14 = match T14::read_options(reader, options, ()) {
            Ok(v) => v,
            Err(e) => {
                return Err(e);
            },
        };
        let v15 = match T15::read_options(reader, options, ()) {
            Ok(v) => v,
            Err(e) => {
                return Err(e);
            },
        };
        let v16 = match T16::read_options(reader, options, ()) {
            Ok(v) => v,
            Err(e) => {
                return Err(e);
            },
        };
        let v17 = match T17::read_options(reader, options, ()) {
            Ok(v) => v,
            Err(e) => {
                return Err(e);
            },
        };
        let v18 = match T18::read_options(reader, options, ()) {
            Ok(v) => v,
            Err(e) => {
                return Err(e);
            },
        };
        let v19 = match T19::read_options(reader, options, ()) {
            Ok(v) => v,
            Err(e) => {
                return Err(e);
            },
        };
        let v20 = match T20::read_options(reader, options, ()) {
            Ok(v) => v,
            Err(e) => {
                return Err(e);
            },
        };
        let v21 = match T21::read_options(reader, options, ()) {
            Ok(v) => v,
            Err(e) => {
                return Err(e);
            },
        };
        let v22 = match T22::read_options(reader, options, ()) {
            Ok(v) => v,
            Err(e) => {
                return Err(e);
            },
        };
        let v23 = match T23::read_options(reader, options, ()) {
            Ok(v) => v,
            Err(e) => {
                return Err(e);
            },
        };
        let v24 = match T24::read_options(reader, options, ()) {
            Ok(v) => v,
            Err(e) => {
                return Err(e);
            },
        };
        let v25 = match T25::read_options(reader, options, ()) {
            Ok(v) => v,
            Err(e) => {
                return Err(e);
            },
        };
        let v26 = match T26::read_options(reader, options, ()) {
            Ok(v) => v,
            Err(e) => {
                return Err(e);
            },
        };
        let v27 = match T27::read_options(reader, options, ()) {
            Ok(v) => v,
            Err(e) => {
                return Err(e);
            },
        };
        let v28 = match T28::read_options(reader, options, ()) {
            Ok(v) => v,
            Err(e) => {
                return Err(e);
            },
        };
        let v29 = match T29::read_options(reader, options, ()) {
            Ok(v) => v,
            Err(e) => {
                return Err(e);
            },
        };
        Ok((v0, v1, v2, v3, v4, v5, v6, v7, v8, v9, v10, v11, v12, v13, v14, v15, v16, v17, v18, v19, v20, v21, v22, v23, v24, v25, v26, v27, v28, v29))
    }

    fn after_parse(self, reader: &mut Cursor, options: &ReadOptions, args: ()) -> (r: BinResult<
        (T0, T1, T2, T3, T4, T5, T6, T7, T8, T9, T10, T11, T12, T13, T14, T15, T16, T17, T18, T19, T20, T21, T22, T23, T24, T25, T26, T27, T28, T29),
    >) {
        let (x0, x1, x2, x3, x4, x5, x6, x7, x8, x9, x10, x11, x12, x13, x14, x15, x16, x17, x18, x19, x20, x21, x22, x23, x24, x25, x26, x27, x28, x29) = self;
        let v0 = match x0.after_parse(reader, options, ()) {
            Ok(v) => v,
            Err(e) => {
                return Err(e);
            },
        };
        let v1 = match x1.after_parse(reader, options, ()) {
            Ok(v) => v,
            Err(e) => {
                return Err(e);
            },
        };
        let v2 = match x2.after_parse(reader, options, ()) {
            Ok(v) => v,
            Err(e) => {
                return Err(e);
            },
        };
        let v3 = match x3.after_parse(reader, options, ()) {
            Ok(v) => v,
            Err(e) => {
                return Err(e);
            },
        };
        let v4 = match x4.after_parse(reader, options, ()) {
            Ok(v) => v,
            Err(e) => {
                return Err(e);
            },
        };
        let v5 = match x5.after_parse(reader, options, ()) {
            Ok(v) => v,
            Err(e) => {
                return Err(e);
            },
        };
        let v6 = match x6.after_parse(reader, options, ()) {
            Ok(v) => v,
            Err(e) => {
                return Err(e);
            },
        };
        let v7 = match x7.after_parse(reader, options, ()) {
            Ok(v) => v,
            Err(e) => {
                return Err(e);
            },
        };
        let v8 = match x8.after_parse(reader, options, ()) {
            Ok(v) => v,
            Err(e) => {
                return Err(e);
            },
        };
        let v9 = match x9.after_parse(reader, options, ()) {
            Ok(v) => v,
            Err(e) => {
                return Err(e);
            },
        };
        let v10 = match x10.after_parse(reader, options, ()) {
            Ok(v) => v,
            Err(e) => {
                return Err(e);
            },
        };
        let v11 = match x11.after_parse(reader, options, ()) {
            Ok(v) => v,
            Err(e) => {
                return Err(e);
            },
        };
        let v12 = match x12.after_parse(reader, options, ()) {
            Ok(v) => v,
            Err(e) => {
                return Err(e);
            },
        };
        let v13 = match x13.after_parse(reader, options, ()) {
            Ok(v) => v,
            Err(e) => {
                return Err(e);
            },
        };
        let v14 = match x14.after_parse(reader, options, ()) {
            Ok(v) => v,
            Err(e) => {
                return Err(e);
            },
        };
        let v15 = match x15.after_parse(reader, options, ()) {
            Ok(v) => v,
            Err(e) => {
                return Err(e);
            },
        };
        let v16 = match x16.after_parse(reader, options, ()) {
            Ok(v) => v,
            Err(e) => {
                return Err(e);
            },
        };
        let v17 = match x17.after_parse(reader, options, ()) {
            Ok(v) => v,
            Err(e) => {
                return Err(e);
            },
        };
        let v18 = match x18.after_parse(reader, options, ()) {
            Ok(v) => v,
            Err(e) => {
                return Err(e);
            },
        };
        let v19 = match x19.after_parse(reader, options, ()) {
            Ok(v) => v,
            Err(e) => {
                return Err(e);
            },
        };
        let v20 = match x20.after_parse(reader, options, ()) {
            Ok(v) => v,
            Err(e) => {
                return Err(e);
            },
        };
        let v21 = match x21.after_parse(reader, options, ()) {
            Ok(v) => v,
            Err(e) => {
                return Err(e);
            },
        };
        let v22 = match x22.after_parse(reader, options, ()) {
            Ok(v) => v,
            Err(e) => {
                return Err(e);
            },
        };
        let v23 = match x23.after_parse(reader, options, ()) {
            Ok(v) => v,
            Err(e) => {
                return Err(e);
            },
        };
        let v24 = match x24.after_parse(reader, options, ()) {
            Ok(v) => v,
            Err(e) => {
                return Err(e);
            },
        };
        let v25 = match x25.after_parse(reader, options, ()) {
            Ok(v) => v,
            Err(e) => {
                return Err(e);
            },
        };
        let v26 = match x26.after_parse(reader, options, ()) {
            Ok(v) => v,
            Err(e) => {
                return Err(e);
            },
        };
        let v27 = match x27.after_parse(reader, options, ()) {
            Ok(v) => v,
            Err(e) => {
                return Err(e);
            },
        };
        let v28 = match x28.after_parse(reader, options, ()) {
            Ok(v) => v,
            Err(e) => {
                return Err(e);
            },
        };
        let v29 = match x29.after_parse(reader, options, ()) {
            Ok(v) => v,
            Err(e) => {
                return Err(e);
            },
        };
        Ok((v0, v1, v2, v3, v4, v5, v6, v7, v8, v9, v10, v11, v12, v13, v14, v15, v16, v17, v18, v19, v20, v21, v22, v23, v24, v25, v26, v27, v28, v29))
    }
}

impl<T0: BinRead<Args = ()>, T1: BinRead<Args = ()>, T2: BinRead<Args = ()>, T3: BinRead<Args = ()>, T4: BinRead<Args = ()>, T5: BinRead<Args = ()>, T6: BinRead<Args = ()>, T7: BinRead<Args = ()>, T8: BinRead<Args = ()>, T9: BinRead<Args = ()>, T10: BinRead<Args = ()>, T11: BinRead<Args = ()>, T12: BinRead<Args = ()>, T13: BinRead<Args = ()>, T14: BinRead<Args = ()>, T15: BinRead<Args = ()>, T16: BinRead<Args = ()>, T17: BinRead<Args = ()>, T18: BinRead<Args = ()>, T19: BinRead<Args = ()>, T20: BinRead<Args = ()>, T21: BinRead<Args = ()>, T22: BinRead<Args = ()>, T23: BinRead<Args = ()>, T24: BinRead<Args = ()>, T25: BinRead<Args = ()>, T26: BinRead<Args = ()>, T27: BinRead<Args = ()>, T28: BinRead<Args = ()>, T29: BinRead<Args = ()>, T30: BinRead<Args = ()>> BinRead for (T0, T1, T2, T3, T4, T5, T6, T7, T8, T9, T10, T11, T12, T13, T14, T15, T16, T17, T18, T19, T20, T21, T22, T23, T24, T25, T26, T27, T28, T29, T30) {
    type Args = ();

    type Model = (T0::Model, T1::Model, T2::Model, T3::Model, T4::Model, T5::Model, T6::Model, T7::Model, T8::Model, T9::Model, T10::Model, T11::Model, T12::Model, T13::Model, T14::Model, T15::Model, T16::Model, T17::Model, T18::Model, T19::Model, T20::Model, T21::Model, T22::Model, T23::Model, T24::Model, T25::Model, T26::Model, T27::Model, T28::Model, T29::Model, T30::Model);

    open spec fn model(self) -> (T0::Model, T1::Model, T2::Model, T3::Model, T4::Model, T5::Model, T6::Model, T7::Model, T8::Model, T9::Model, T10::Model, T11::Model, T12::Model, T13::Model, T14::Model, T15::Model, T16::Model, T17::Model, T18::Model, T19::Model, T20::Model, T21::Model, T22::Model, T23::Model, T24::Model, T25::Model, T26::Model, T27::Model, T28::Model, T29::Model, T30::Model) {
        (self.0.model(), self.1.model(), self.2.model(), self.3.model(), self.4.model(), self.5.model(), self.6.model(), self.7.model(), self.8.model(), self.9.model(), self.10.model(), self.11.model(), self.12.model(), self.13.model(), self.14.model(), self.15.model(), self.16.model(), self.17.model(), self.18.model(), self.19.model(), self.20.model(), self.21.model(), self.22.model(), self.23.model(), self.24.model(), self.25.model(), self.26.model(), self.27.model(), self.28.model(), self.29.model(), self.30.model())
    }

    open spec fn spec_read(s: StreamView, endian: Endian, args: ()) -> Result<
        ((T0::Model, T1::Model, T2::Model, T3::Model, T4::Model, T5::Model, T6::Model, T7::Model, T8::Model, T9::Model, T10::Model, T11::Model, T12::Model, T13::Model, T14::Model, T15::Model, T16::Model, T17::Model, T18::Model, T19::Model, T20::Model, T21::Model, T22::Model, T23::Model, T24::Model, T25::Model, T26::Model, T27::Model, T28::Model, T29::Model, T30::Model), int),
        Error,
    > {
        match T0::spec_read(s, endian, ()) {
            Err(e) => Err(e),
            Ok((m0, p0)) => {
                match T1::spec_read(StreamView { data: s.data, pos: p0 }, endian, ()) {
                    Err(e) => Err(e),
                    Ok((m1, p1)) => {
                        match T2::spec_read(StreamView { data: s.data, pos: p1 }, endian, ()) {
                            Err(e) => Err(e),
                            Ok((m2, p2)) => {
                                match T3::spec_read(StreamView { data: s.data, pos: p2 }, endian, ()) {
                                    Err(e) => Err(e),
                                    Ok((m3, p3)) => {
                                        match T4::spec_read(StreamView { data: s.data, pos: p3 }, endian, ()) {
                                            Err(e) => Err(e),
                                            Ok((m4, p4)) => {
                                                match T5::spec_read(StreamView { data: s.data, pos: p4 }, endian, ()) {
                                                    Err(e) => Err(e),
                                                    Ok((m5, p5)) => {
                                                        match T6::spec_read(StreamView { data: s.data, pos: p5 }, endian, ()) {
                                                            Err(e) => Err(e),
                                                            Ok((m6, p6)) => {
                                                                match T7::spec_read(StreamView { data: s.data, pos: p6 }, endian, ()) {
                                                                    Err(e) => Err(e),
                                                                    Ok((m7, p7)) => {
                                                                        match T8::spec_read(StreamView { data: s.data, pos: p7 }, endian, ()) {
                                                                            Err(e) => Err(e),
                                                                            Ok((m8, p8)) => {
                                                                                match T9::spec_read(StreamView { data: s.data, pos: p8 }, endian, ()) {
                                                                                    Err(e) => Err(e),
                                                                                    Ok((m9, p9)) => {
                                                                                        match T10::spec_read(StreamView { data: s.data, pos: p9 }, endian, ()) {
                                                                                            Err(e) => Err(e),
                                                                                            Ok((m10, p10)) => {
                                                                                                match T11::spec_read(StreamView { data: s.data, pos: p10 }, endian, ()) {
                                                                                                    Err(e) => Err(e),
                                                                                                    Ok((m11, p11)) => {
                                                                                                        match T12::spec_read(StreamView { data: s.data, pos: p11 }, endian, ()) {
                                                                                                            Err(e) => Err(e),
                                                                                                            Ok((m12, p12)) => {
                                                                                                                match T13::spec_read(StreamView { data: s.data, pos: p12 }, endian, ()) {
                                                                                                                    Err(e) => Err(e),
                                                                                                                    Ok((m13, p13)) => {
                                                                                                                        match T14::spec_read(StreamView { data: s.data, pos: p13 }, endian, ()) {
                                                                                                                            Err(e) => Err(e),
                                                                                                                            Ok((m14, p14)) => {
                                                                                                                                match T15::spec_read(StreamView { data: s.data, pos: p14 }, endian, ()) {
                                                                                                                                    Err(e) => Err(e),
                                                                                                                                    Ok((m15, p15)) => {
                                                                                                                                        match T16::spec_read(StreamView { data: s.data, pos: p15 }, endian, ()) {
                                                                                                                                            Err(e) => Err(e),
                                                                                                                                            Ok((m16, p16)) => {
                                                                                                                                                match T17::spec_read(StreamView { data: s.data, pos: p16 }, endian, ()) {
                                                                                                                                                    Err(e) => Err(e),
                                                                                                                                                    Ok((m17, p17)) => {
                                                                                                                                                        match T18::spec_read(StreamView { data: s.data, pos: p17 }, endian, ()) {
                                                                                                                                                            Err(e) => Err(e),
                                                                                                                                                            Ok((m18, p18)) => {
                                                                                                                                                                match T19::spec_read(StreamView { data: s.data, pos: p18 }, endian, ()) {
                                                                                                                                                                    Err(e) => Err(e),
                                                                                                                                                                    Ok((m19, p19)) => {
                                                                                                                                                                        match T20::spec_read(StreamView { data: s.data, pos: p19 }, endian, ()) {
                                                                                                                                                                            Err(e) => Err(e),
                                                                                                                                                                            Ok((m20, p20)) => {
                                                                                                                                                                                match T21::spec_read(StreamView { data: s.data, pos: p20 }, endian, ()) {
                                                                                                                                                                                    Err(e) => Err(e),
                                                                                                                                                                                    Ok((m21, p21)) => {
                                                                                                                                                                                        match T22::spec_read(StreamView { data: s.data, pos: p21 }, endian, ()) {
                                                                                                                                                                                            Err(e) => Err(e),
                                                                                                                                                                                            Ok((m22, p22)) => {
                                                                                                                                                                                                match T23::spec_read(StreamView { data: s.data, pos: p22 }, endian, ()) {
                                                                                                                                                                                                    Err(e) => Err(e),
                                                                                                                                                                                                    Ok((m23, p23)) => {
                                                                                                                                                                                                        match T24::spec_read(StreamView { data: s.data, pos: p23 }, endian, ()) {
                                                                                                                                                                                                            Err(e) => Err(e),
                                                                                                                                                                                                            Ok((m24, p24)) => {
                                                                                                                                                                                                                match T25::spec_read(StreamView { data: s.data, pos: p24 }, endian, ()) {
                                                                                                                                                                                                                    Err(e) => Err(e),
                                                                                                                                                                                                                    Ok((m25, p25)) => {
                                                                                                                                                                                                                        match T26::spec_read(StreamView { data: s.data, pos: p25 }, endian, ()) {
                                                                                                                                                                                                                            Err(e) => Err(e),
                                                                                                                                                                                                                            Ok((m26, p26)) => {
                                                                                                                                                                                                                                match T27::spec_read(StreamView { data: s.data, pos: p26 }, endian, ()) {
                                                                                                                                                                                                                                    Err(e) => Err(e),
                                                                                                                                                                                                                                    Ok((m27, p27)) => {
                                                                                                                                                                                                                                        match T28::spec_read(StreamView { data: s.data, pos: p27 }, endian, ()) {
                                                                                                                                                                                                                                            Err(e) => Err(e),
                                                                                                                                                                                                                                            Ok((m28, p28)) => {
                                                                                                                                                                                                                                                match T29::spec_read(StreamView { data: s.data, pos: p28 }, endian, ()) {
                                                                                                                                                                                                                                                    Err(e) => Err(e),
                                                                                                                                                                                                                                                    Ok((m29, p29)) => {
                                                                                                                                                                                                                                                        match T30::spec_read(StreamView { data: s.data, pos: p29 }, endian, ()) {
                                                                                                                                                                                                                                                            Err(e) => Err(e),
                                                                                                                                                                                                                                                            Ok((m30, p30)) => Ok(((m0, m1, m2, m3, m4, m5, m6, m7, m8, m9, m10, m11, m12, m13, m14, m15, m16, m17, m18, m19, m20, m21, m22, m23, m24, m25, m26, m27, m28, m29, m30), p30)),
                                                                                                                                                                                                                                                        }
                                                                                                                                                                                                                                                    },
                                                                                                                                                                                                                                                }
                                                                                                                                                                                                                                            },
                                                                                                                                                                                                                                        }
                                                                                                                                                                                                                                    },
                                                                                                                                                                                                                                }
                                                                                                                                                                                                                            },
                                                                                                                                                                                                                        }
                                                                                                                                                                                                                    },
                                                                                                                                                                                                                }
                                                                                                                                                                                                            },
                                                                                                                                                                                                        }
                                                                                                                                                                                                    },
                                                                                                                                                                                                }
                                                                                                                                                                                            },
                                                                                                                                                                                        }
                                                                                                                                                                                    },
                                                                                                                                                                                }
                                                                                                                                                                            },
                                                                                                                                                                        }
                                                                                                                                                                    },
                                                                                                                                                                }
                                                                                                                                                            },
                                                                                                                                                        }
                                                                                                                                                    },
                                                                                                                                                }
                                                                                                                                            },
                                                                                                                                        }
                                                                                                                                    },
                                                                                                                                }
                                                                                                                            },
                                                                                                                        }
                                                                                                                    },
                                                                                                                }
                                                                                                            },
                                                                                                        }
                                                                                                    },
                                                                                                }
                                                                                            },
                                                                                        }
                                                                                    },
                                                                                }
                                                                            },
                                                                        }
                                                                    },
                                                                }
                                                            },
                                                        }
                                                    },
                                                }
                                            },
                                        }
                                    },
                                }
                            },
                        }
                    },
                }
            },
        }
    }

    open spec fn spec_after(m: (T0::Model, T1::Model, T2::Model, T3::Model, T4::Model, T5::Model, T6::Model, T7::Model, T8::Model, T9::Model, T10::Model, T11::Model, T12::Model, T13::Model, T14::Model, T15::Model, T16::Model, T17::Model, T18::Model, T19::Model, T20::Model, T21::Model, T22::Model, T23::Model, T24::Model, T25::Model, T26::Model, T27::Model, T28::Model, T29::Model, T30::Model), s: StreamView, endian: Endian, args: ()) -> Result<
        ((T0::Model, T1::Model, T2::Model, T3::Model, T4::Model, T5::Model, T6::Model, T7::Model, T8::Model, T9::Model, T10::Model, T11::Model, T12::Model, T13::Model, T14::Model, T15::Model, T16::Model, T17::Model, T18::Model, T19::Model, T20::Model, T21::Model, T22::Model, T23::Model, T24::Model, T25::Model, T26::Model, T27::Model, T28::Model, T29::Model, T30::Model), int),
        Error,
    > {
        match T0::spec_after(m.0, s, endian, ()) {
            Err(e) => Err(e),
            Ok((m0, p0)) => {
                match T1::spec_after(m.1, StreamView { data: s.data, pos: p0 }, endian, ()) {
                    Err(e) => Err(e),
                    Ok((m1, p1)) => {
                        match T2::spec_after(m.2, StreamView { data: s.data, pos: p1 }, endian, ()) {
                            Err(e) => Err(e),
                            Ok((m2, p2)) => {
                                match T3::spec_after(m.3, StreamView { data: s.data, pos: p2 }, endian, ()) {
                                    Err(e) => Err(e),
                                    Ok((m3, p3)) => {
                                        match T4::spec_after(m.4, StreamView { data: s.data, pos: p3 }, endian, ()) {
                                            Err(e) => Err(e),
                                            Ok((m4, p4)) => {
                                                match T5::spec_after(m.5, StreamView { data: s.data, pos: p4 }, endian, ()) {
                                                    Err(e) => Err(e),
                                                    Ok((m5, p5)) => {
                                                        match T6::spec_after(m.6, StreamView { data: s.data, pos: p5 }, endian, ()) {
                                                            Err(e) => Err(e),
                                                            Ok((m6, p6)) => {
                                                                match T7::spec_after(m.7, StreamView { data: s.data, pos: p6 }, endian, ()) {
                                                                    Err(e) => Err(e),
                                                                    Ok((m7, p7)) => {
                                                                        match T8::spec_after(m.8, StreamView { data: s.data, pos: p7 }, endian, ()) {
                                                                            Err(e) => Err(e),
                                                                            Ok((m8, p8)) => {
                                                                                match T9::spec_after(m.9, StreamView { data: s.data, pos: p8 }, endian, ()) {
                                                                                    Err(e) => Err(e),
                                                                                    Ok((m9, p9)) => {
                                                                                        match T10::spec_after(m.10, StreamView { data: s.data, pos: p9 }, endian, ()) {
                                                                                            Err(e) => Err(e),
                                                                                            Ok((m10, p10)) => {
                                                                                                match T11::spec_after(m.11, StreamView { data: s.data, pos: p10 }, endian, ()) {
                                                                                                    Err(e) => Err(e),
                                                                                                    Ok((m11, p11)) => {
                                                                                                        match T12::spec_after(m.12, StreamView { data: s.data, pos: p11 }, endian, ()) {
                                                                                                            Err(e) => Err(e),
                                                                                                            Ok((m12, p12)) => {
                                                                                                                match T13::spec_after(m.13, StreamView { data: s.data, pos: p12 }, endian, ()) {
                                                                                                                    Err(e) => Err(e),
                                                                                                                    Ok((m13, p13)) => {
                                                                                                                        match T14::spec_after(m.14, StreamView { data: s.data, pos: p13 }, endian, ()) {
                                                                                                                            Err(e) => Err(e),
                                                                                                                            Ok((m14, p14)) => {
                                                                                                                                match T15::spec_after(m.15, StreamView { data: s.data, pos: p14 }, endian, ()) {
                                                                                                                                    Err(e) => Err(e),
                                                                                                                                    Ok((m15, p15)) => {
                                                                                                                                        match T16::spec_after(m.16, StreamView { data: s.data, pos: p15 }, endian, ()) {
                                                                                                                                            Err(e) => Err(e),
                                                                                                                                            Ok((m16, p16)) => {
                                                                                                                                                match T17::spec_after(m.17, StreamView { data: s.data, pos: p16 }, endian, ()) {
                                                                                                                                                    Err(e) => Err(e),
                                                                                                                                                    Ok((m17, p17)) => {
                                                                                                                                                        match T18::spec_after(m.18, StreamView { data: s.data, pos: p17 }, endian, ()) {
                                                                                                                                                            Err(e) => Err(e),
                                                                                                                                                            Ok((m18, p18)) => {
                                                                                                                                                                match T19::spec_after(m.19, StreamView { data: s.data, pos: p18 }, endian, ()) {
                                                                                                                                                                    Err(e) => Err(e),
                                                                                                                                                                    Ok((m19, p19)) => {
                                                                                                                                                                        match T20::spec_after(m.20, StreamView { data: s.data, pos: p19 }, endian, ()) {
                                                                                                                                                                            Err(e) => Err(e),
                                                                                                                                                                            Ok((m20, p20)) => {
                                                                                                                                                                                match T21::spec_after(m.21, StreamView { data: s.data, pos: p20 }, endian, ()) {
                                                                                                                                                                                    Err(e) => Err(e),
                                                                                                                                                                                    Ok((m21, p21)) => {
                                                                                                                                                                                        match T22::spec_after(m.22, StreamView { data: s.data, pos: p21 }, endian, ()) {
                                                                                                                                                                                            Err(e) => Err(e),
                                                                                                                                                                                            Ok((m22, p22)) => {
                                                                                                                                                                                                match T23::spec_after(m.23, StreamView { data: s.data, pos: p22 }, endian, ()) {
                                                                                                                                                                                                    Err(e) => Err(e),
                                                                                                                                                                                                    Ok((m23, p23)) => {
                                                                                                                                                                                                        match T24::spec_after(m.24, StreamView { data: s.data, pos: p23 }, endian, ()) {
                                                                                                                                                                                                            Err(e) => Err(e),
                                                                                                                                                                                                            Ok((m24, p24)) => {
                                                                                                                                                                                                                match T25::spec_after(m.25, StreamView { data: s.data, pos: p24 }, endian, ()) {
                                                                                                                                                                                                                    Err(e) => Err(e),
                                                                                                                                                                                                                    Ok((m25, p25)) => {
                                                                                                                                                                                                                        match T26::spec_after(m.26, StreamView { data: s.data, pos: p25 }, endian, ()) {
                                                                                                                                                                                                                            Err(e) => Err(e),
                                                                                                                                                                                                                            Ok((m26, p26)) => {
                                                                                                                                                                                                                                match T27::spec_after(m.27, StreamView { data: s.data, pos: p26 }, endian, ()) {
                                                                                                                                                                                                                                    Err(e) => Err(e),
                                                                                                                                                                                                                                    Ok((m27, p27)) => {
                                                                                                                                                                                                                                        match T28::spec_after(m.28, StreamView { data: s.data, pos: p27 }, endian, ()) {
                                                                                                                                                                                                                                            Err(e) => Err(e),
                                                                                                                                                                                                                                            Ok((m28, p28)) => {
                                                                                                                                                                                                                                                match T29::spec_after(m.29, StreamView { data: s.data, pos: p28 }, endian, ()) {
                                                                                                                                                                                                                                                    Err(e) => Err(e),
                                                                                                                                                                                                                                                    Ok((m29, p29)) => {
                                                                                                                                                                                                                                                        match T30::spec_after(m.30, StreamView { data: s.data, pos: p29 }, endian, ()) {
                                                                                                                                                                                                                                                            Err(e) => Err(e),
                                                                                                                                                                                                                                                            Ok((m30, p30)) => Ok(((m0, m1, m2, m3, m4, m5, m6, m7, m8, m9, m10, m11, m12, m13, m14, m15, m16, m17, m18, m19, m20, m21, m22, m23, m24, m25, m26, m27, m28, m29, m30), p30)),
                                                                                                                                                                                                                                                        }
                                                                                                                                                                                                                                                    },
                                                                                                                                                                                                                                                }
                                                                                                                                                                                                                                            },
                                                                                                                                                                                                                                        }
                                                                                                                                                                                                                                    },
                                                                                                                                                                                                                                }
                                                                                                                                                                                                                            },
                                                                                                                                                                                                                        }
                                                                                                                                                                                                                    },
                                                                                                                                                                                                                }
                                                                                                                                                                                                            },
                                                                                                                                                                                                        }
                                                                                                                                                                                                    },
                                                                                                                                                                                                }
                                                                                                                                                                                            },
                                                                                                                                                                                        }
                                                                                                                                                                                    },
                                                                                                                                                                                }
                                                                                                                                                                            },
                                                                                                                                                                        }
                                                                                                                                                                    },
                                                                                                                                                                }
                                                                                                                                                            },
                                                                                                                                                        }
                                                                                                                                                    },
                                                                                                                                                }
                                                                                                                                            },
                                                                                                                                        }
                                                                                                                                    },
                                                                                                                                }
                                                                                                                            },
                                                                                                                        }
                                                                                                                    },
                                                                                                                }
                                                                                                            },
                                                                                                        }
                                                                                                    },
                                                                                                }
                                                                                            },
                                                                                        }
                                                                                    },
                                                                                }
                                                                            },
                                                                        }
                                                                    },
                                                                }
                                                            },
                                                        }
                                                    },
                                                }
                                            },
                                        }
                                    },
                                }
                            },
                        }
                    },
                }
            },
        }
    }

    open spec fn restores_on_failure() -> bool {
        false
    }

    fn read_options(reader: &mut Cursor, options: &ReadOptions, args: ()) -> (r: BinResult<
        (T0, T1, T2, T3, T4, T5, T6, T7, T8, T9, T10, T11, T12, T13, T14, T15, T16, T17, T18, T19, T20, T21, T22, T23, T24, T25, T26, T27, T28, T29, T30),
    >) {
        proof {
            assert(!Self::restores_on_failure());
        }
        let v0 = match T0::read_options(reader, options, ()) {
            Ok(v) => v,
            Err(e) => {
                return Err(e);
            },
        };
        let v1 = match T1::read_options(reader, options, ()) {
            Ok(v) => v,
            Err(e) => {
                return Err(e);
            },
        };
        let v2 = match T2::read_options(reader, options, ()) {
            Ok(v) => v,
            Err(e) => {
                return Err(e);
            },
        };
        let v3 = match T3::read_options(reader, options, ()) {
            Ok(v) => v,
            Err(e) => {
                return Err(e);
            },
        };
        let v4 = match T4::read_options(reader, options, ()) {
            Ok(v) => v,
            Err(e) => {
                return Err(e);
            },
        };
        let v5 = match T5::read_options(reader, options, ()) {
            Ok(v) => v,
            Err(e) => {
                return Err(e);
            },
        };
        let v6 = match T6::read_options(reader, options, ()) {
            Ok(v) => v,
            Err(e) => {
                return Err(e);
            },
        };
        let v7 = match T7::read_options(reader, options, ()) {
            Ok(v) => v,
            Err(e) => {
                return Err(e);
            },
        };
        let v8 = match T8::read_options(reader, options, ()) {
            Ok(v) => v,
            Err(e) => {
                return Err(e);
            },
        };
        let v9 = match T9::read_options(reader, options, ()) {
            Ok(v) => v,
            Err(e) => {
                return Err(e);
            },
        };
        let v10 = match T10::read_options(reader, options, ()) {
            Ok(v) => v,
            Err(e) => {
                return Err(e);
            },
        };
        let v11 = match T11::read_options(reader, options, ()) {
            Ok(v) => v,
            Err(e) => {
                return Err(e);
            },
        };
        let v12 = match T12::read_options(reader, options, ()) {
            Ok(v) => v,
            Err(e) => {
                return Err(e);
            },
        };
        let v13 = match T13::read_options(reader, options, ()) {
            Ok(v) => v,
            Err(e) => {
                return Err(e);
            },
        };
        let v14 = match T14::read_options(reader, options, ()) {
            Ok(v) => v,
            Err(e) => {
                return Err(e);
            },
        };
        let v15 = match T15::read_options(reader, options, ()) {
            Ok(v) => v,
            Err(e) => {
                return Err(e);
            },
        };
        let v16 = match T16::read_options(reader, options, ()) {
            Ok(v) => v,
            Err(e) => {
                return Err(e);
            },
        };
        let v17 = match T17::read_options(reader, options, ()) {
            Ok(v) => v,
            Err(e) => {
                return Err(e);
            },
        };
        let v18 = match T18::read_options(reader, options, ()) {
            Ok(v) => v,
            Err(e) => {
                return Err(e);
            },
        };
        let v19 = match T19::read_options(reader, options, ()) {
            Ok(v) => v,
            Err(e) => {
                return Err(e);
            },
        };
        let v20 = match T20::read_options(reader, options, ()) {
            Ok(v) => v,
            Err(e) => {
                return Err(e);
            },
        };
        let v21 = match T21::read_options(reader, options, ()) {
            Ok(v) => v,
            Err(e) => {
                return Err(e);
            },
        };
        let v22 = match T22::read_options(reader, options, ()) {
            Ok(v) => v,
            Err(e) => {
                return Err(e);
            },
        };
        let v23 = match T23::read_options(reader, options, ()) {
            Ok(v) => v,
            Err(e) => {
                return Err(e);
            },
        };
        let v24 = match T24::read_options(reader, options, ()) {
            Ok(v) => v,
            Err(e) => {
                return Err(e);
            },
        };
        let v25 = match T25::read_options(reader, options, ()) {
            Ok(v) => v,
            Err(e) => {
                return Err(e);
            },
        };
        let v26 = match T26::read_options(reader, options, ()) {
            Ok(v) => v,
            Err(e) => {
                return Err(e);
            },
        };
        let v27 = match T27::read_options(reader, options, ()) {
            Ok(v) => v,
            Err(e) => {
                return Err(e);
            },
        };
        let v28 = match T28::read_options(reader, options, ()) {
            Ok(v) => v,
            Err(e) => {
                return Err(e);
            },
        };
        let v29 = match T29::read_options(reader, options, ()) {
            Ok(v) => v,
            Err(e) => {
                return Err(e);
            },
        };
        let v30 = match T30::read_options(reader, options, ()) {
            Ok(v) => v,
            Err(e) => {
                return Err(e);
            },
        };
        Ok((v0, v1, v2, v3, v4, v5, v6, v7, v8, v9, v10, v11, v12, v13, v14, v15, v16, v17, v18, v19, v20, v21, v22, v23, v24, v25, v26, v27, v28, v29, v30))
    }

    fn after_parse(self, reader: &mut Cursor, options: &ReadOptions, args: ()) -> (r: BinResult<
        (T0, T1, T2, T3, T4, T5, T6, T7, T8, T9, T10, T11, T12, T13, T14, T15, T16, T17, T18, T19, T20, T21, T22, T23, T24, T25, T26, T27, T28, T29, T30),
    >) {
        let (x0, x1, x2, x3, x4, x5, x6, x7, x8, x9, x10, x11, x12, x13, x14, x15, x16, x17, x18, x19, x20, x21, x22, x23, x24, x25, x26, x27, x28, x29, x30) = self;
        let v0 = match x0.after_parse(reader, options, ()) {
            Ok(v) => v,
            Err(e) => {
                return Err(e);
            },
        };
        let v1 = match x1.after_parse(reader, options, ()) {
            Ok(v) => v,
            Err(e) => {
                return Err(e);
            },
        };
        let v2 = match x2.after_parse(reader, options, ()) {
            Ok(v) => v,
            Err(e) => {
                return Err(e);
            },
        };
        let v3 = match x3.after_parse(reader, options, ()) {
            Ok(v) => v,
            Err(e) => {
                return Err(e);
            },
        };
        let v4 = match x4.after_parse(reader, options, ()) {
            Ok(v) => v,
            Err(e) => {
                return Err(e);
            },
        };
        let v5 = match x5.after_parse(reader, options, ()) {
            Ok(v) => v,
            Err(e) => {
                return Err(e);
            },
        };
        let v6 = match x6.after_parse(reader, options, ()) {
            Ok(v) => v,
            Err(e) => {
                return Err(e);
            },
        };
        let v7 = match x7.after_parse(reader, options, ()) {
            Ok(v) => v,
            Err(e) => {
                return Err(e);
            },
        };
        let v8 = match x8.after_parse(reader, options, ()) {
            Ok(v) => v,
            Err(e) => {
                return Err(e);
            },
        };
        let v9 = match x9.after_parse(reader, options, ()) {
            Ok(v) => v,
            Err(e) => {
                return Err(e);
            },
        };
        let v10 = match x10.after_parse(reader, options, ()) {
            Ok(v) => v,
            Err(e) => {
                return Err(e);
            },
        };
        let v11 = match x11.after_parse(reader, options, ()) {
            Ok(v) => v,
            Err(e) => {
                return Err(e);
            },
        };
        let v12 = match x12.after_parse(reader, options, ()) {
            Ok(v) => v,
            Err(e) => {
                return Err(e);
            },
        };
        let v13 = match x13.after_parse(reader, options, ()) {
            Ok(v) => v,
            Err(e) => {
                return Err(e);
            },
        };
        let v14 = match x14.after_parse(reader, options, ()) {
            Ok(v) => v,
            Err(e) => {
                return Err(e);
            },
        };
        let v15 = match x15.after_parse(reader, options, ()) {
            Ok(v) => v,
            Err(e) => {
                return Err(e);
            },
        };
        let v16 = match x16.after_parse(reader, options, ()) {
            Ok(v) => v,
            Err(e) => {
                return Err(e);
            },
        };
        let v17 = match x17.after_parse(reader, options, ()) {
            Ok(v) => v,
            Err(e) => {
                return Err(e);
            },
        };
        let v18 = match x18.after_parse(reader, options, ()) {
            Ok(v) => v,
            Err(e) => {
                return Err(e);
            },
        };
        let v19 = match x19.after_parse(reader, options, ()) {
            Ok(v) => v,
            Err(e) => {
                return Err(e);
            },
        };
        let v20 = match x20.after_parse(reader, options, ()) {
            Ok(v) => v,
            Err(e) => {
                return Err(e);
            },
        };
        let v21 = match x21.after_parse(reader, options, ()) {
            Ok(v) => v,
            Err(e) => {
                return Err(e);
            },
        };
        let v22 = match x22.after_parse(reader, options, ()) {
            Ok(v) => v,
            Err(e) => {
                return Err(e);
            },
        };
        let v23 = match x23.after_parse(reader, options, ()) {
            Ok(v) => v,
            Err(e) => {
                return Err(e);
            },
        };
        let v24 = match x24.after_parse(reader, options, ()) {
            Ok(v) => v,
            Err(e) => {
                return Err(e);
            },
        };
        let v25 = match x25.after_parse(reader, options, ()) {
            Ok(v) => v,
            Err(e) => {
                return Err(e);
            },
        };
        let v26 = match x26.after_parse(reader, options, ()) {
            Ok(v) => v,
            Err(e) => {
                return Err(e);
            },
        };
        let v27 = match x27.after_parse(reader, options, ()) {
            Ok(v) => v,
            Err(e) => {
                return Err(e);
            },
        };
        let v28 = match x28.after_parse(reader, options, ()) {
            Ok(v) => v,
            Err(e) => {
                return Err(e);
            },
        };
        let v29 = match x29.after_parse(reader, options, ()) {
            Ok(v) => v,
            Err(e) => {
                return Err(e);
            },
        };
        let v30 = match x30.after_parse(reader, options, ()) {
            Ok(v) => v,
            Err(e) => {
                return Err(e);
            },
        };
        Ok((v0, v1, v2, v3, v4, v5, v6, v7, v8, v9, v10, v11, v12, v13, v14, v15, v16, v17, v18, v19, v20, v21, v22, v23, v24, v25, v26, v27, v28, v29, v30))
    }
}

impl<T0: BinRead<Args = ()>, T1: BinRead<Args = ()>, T2: BinRead<Args = ()>, T3: BinRead<Args = ()>, T4: BinRead<Args = ()>, T5: BinRead<Args = ()>, T6: BinRead<Args = ()>, T7: BinRead<Args = ()>, T8: BinRead<Args = ()>, T9: BinRead<Args = ()>, T10: BinRead<Args = ()>, T11: BinRead<Args = ()>, T12: BinRead<Args = ()>, T13: BinRead<Args = ()>, T14: BinRead<Args = ()>, T15: BinRead<Args = ()>, T16: BinRead<Args = ()>, T17: BinRead<Args = ()>, T18: BinRead<Args = ()>, T19: BinRead<Args = ()>, T20: BinRead<Args = ()>, T21: BinRead<Args = ()>, T22: BinRead<Args = ()>, T23: BinRead<Args = ()>, T24: BinRead<Args = ()>, T25: BinRead<Args = ()>, T26: BinRead<Args = ()>, T27: BinRead<Args = ()>, T28: BinRead<Args = ()>, T29: BinRead<Args = ()>, T30: BinRead<Args = ()>, T31: BinRead<Args = ()>> BinRead for (T0, T1, T2, T3, T4, T5, T6, T7, T8, T9, T10, T11, T12, T13, T14, T15, T16, T17, T18, T19, T20, T21, T22, T23, T24, T25, T26, T27, T28, T29, T30, T31) {
    type Args = ();

    type Model = (T0::Model, T1::Model, T2::Model, T3::Model, T4::Model, T5::Model, T6::Model, T7::Model, T8::Model, T9::Model, T10::Model, T11::Model, T12::Model, T13::Model, T14::Model, T15::Model, T16::Model, T17::Model, T18::Model, T19::Model, T20::Model, T21::Model, T22::Model, T23::Model, T24::Model, T25::Model, T26::Model, T27::Model, T28::Model, T29::Model, T30::Model, T31::Model);

    open spec fn model(self) -> (T0::Model, T1::Model, T2::Model, T3::Model, T4::Model, T5::Model, T6::Model, T7::Model, T8::Model, T9::Model, T10::Model, T11::Model, T12::Model, T13::Model, T14::Model, T15::Model, T16::Model, T17::Model, T18::Model, T19::Model, T20::Model, T21::Model, T22::Model, T23::Model, T24::Model, T25::Model, T26::Model, T27::Model, T28::Model, T29::Model, T30::Model, T31::Model) {
        (self.0.model(), self.1.model(), self.2.model(), self.3.model(), self.4.model(), self.5.model(), self.6.model(), self.7.model(), self.8.model(), self.9.model(), self.10.model(), self.11.model(), self.12.model(), self.13.model(), self.14.model(), self.15.model(), self.16.model(), self.17.model(), self.18.model(), self.19.model(), self.20.model(), self.21.model(), self.22.model(), self.23.model(), self.24.model(), self.25.model(), self.26.model(), self.27.model(), self.28.model(), self.29.model(), self.30.model(), self.31.model())
    }

    open spec fn spec_read(s: StreamView, endian: Endian, args: ()) -> Result<
        ((T0::Model, T1::Model, T2::Model, T3::Model, T4::Model, T5::Model, T6::Model, T7::Model, T8::Model, T9::Model, T10::Model, T11::Model, T12::Model, T13::Model, T14::Model, T15::Model, T16::Model, T17::Model, T18::Model, T19::Model, T20::Model, T21::Model, T22::Model, T23::Model, T24::Model, T25::Model, T26::Model, T27::Model, T28::Model, T29::Model, T30::Model, T31::Model), int),
        Error,
    > {
        match T0::spec_read(s, endian, ()) {
            Err(e) => Err(e),
            Ok((m0, p0)) => {
                match T1::spec_read(StreamView { data: s.data, pos: p0 }, endian, ()) {
                    Err(e) => Err(e),
                    Ok((m1, p1)) => {
                        match T2::spec_read(StreamView { data: s.data, pos: p1 }, endian, ()) {
                            Err(e) => Err(e),
                            Ok((m2, p2)) => {
                                match T3::spec_read(StreamView { data: s.data, pos: p2 }, endian, ()) {
                                    Err(e) => Err(e),
                                    Ok((m3, p3)) => {
                                        match T4::spec_read(StreamView { data: s.data, pos: p3 }, endian, ()) {
                                            Err(e) => Err(e),
                                            Ok((m4, p4)) => {
                                                match T5::spec_read(StreamView { data: s.data, pos: p4 }, endian, ()) {
                                                    Err(e) => Err(e),
                                                    Ok((m5, p5)) => {
                                                        match T6::spec_read(StreamView { data: s.data, pos: p5 }, endian, ()) {
                                                            Err(e) => Err(e),
                                                            Ok((m6, p6)) => {
                                                                match T7::spec_read(StreamView { data: s.data, pos: p6 }, endian, ()) {
                                                                    Err(e) => Err(e),
                                                                    Ok((m7, p7)) => {
                                                                        match T8::spec_read(StreamView { data: s.data, pos: p7 }, endian, ()) {
                                                                            Err(e) => Err(e),
                                                                            Ok((m8, p8)) => {
                                                                                match T9::spec_read(StreamView { data: s.data, pos: p8 }, endian, ()) {
                                                                                    Err(e) => Err(e),
                                                                                    Ok((m9, p9)) => {
                                                                                        match T10::spec_read(StreamView { data: s.data, pos: p9 }, endian, ()) {
                                                                                            Err(e) => Err(e),
                                                                                            Ok((m10, p10)) => {
                                                                                                match T11::spec_read(StreamView { data: s.data, pos: p10 }, endian, ()) {
                                                                                                    Err(e) => Err(e),
                                                                                                    Ok((m11, p11)) => {
                                                                                                        match T12::spec_read(StreamView { data: s.data, pos: p11 }, endian, ()) {
                                                                                                            Err(e) => Err(e),
                                                                                                            Ok((m12, p12)) => {
                                                                                                                match T13::spec_read(StreamView { data: s.data, pos: p12 }, endian, ()) {
                                                                                                                    Err(e) => Err(e),
                                                                                                                    Ok((m13, p13)) => {
                                                                                                                        match T14::spec_read(StreamView { data: s.data, pos: p13 }, endian, ()) {
                                                                                                                            Err(e) => Err(e),
                                                                                                                            Ok((m14, p14)) => {
                                                                                                                                match T15::spec_read(StreamView { data: s.data, pos: p14 }, endian, ()) {
                                                                                                                                    Err(e) => Err(e),
                                                                                                                                    Ok((m15, p15)) => {
                                                                                                                                        match T16::spec_read(StreamView { data: s.data, pos: p15 }, endian, ()) {
                                                                                                                                            Err(e) => Err(e),
                                                                                                                                            Ok((m16, p16)) => {
                                                                                                                                                match T17::spec_read(StreamView { data: s.data, pos: p16 }, endian, ()) {
                                                                                                                                                    Err(e) => Err(e),
                                                                                                                                                    Ok((m17, p17)) => {
                                                                                                                                                        match T18::spec_read(StreamView { data: s.data, pos: p17 }, endian, ()) {
                                                                                                                                                            Err(e) => Err(e),
                                                                                                                                                            Ok((m18, p18)) => {
                                                                                                                                                                match T19::spec_read(StreamView { data: s.data, pos: p18 }, endian, ()) {
                                                                                                                                                                    Err(e) => Err(e),
                                                                                                                                                                    Ok((m19, p19)) => {
                                                                                                                                                                        match T20::spec_read(StreamView { data: s.data, pos: p19 }, endian, ()) {
                                                                                                                                                                            Err(e) => Err(e),
                                                                                                                                                                            Ok((m20, p20)) => {
                                                                                                                                                                                match T21::spec_read(StreamView { data: s.data, pos: p20 }, endian, ()) {
                                                                                                                                                                                    Err(e) => Err(e),
                                                                                                                                                                                    Ok((m21, p21)) => {
                                                                                                                                                                                        match T22::spec_read(StreamView { data: s.data, pos: p21 }, endian, ()) {
                                                                                                                                                                                            Err(e) => Err(e),
                                                                                                                                                                                            Ok((m22, p22)) => {
                                                                                                                                                                                                match T23::spec_read(StreamView { data: s.data, pos: p22 }, endian, ()) {
                                                                                                                                                                                                    Err(e) => Err(e),
                                                                                                                                                                                                    Ok((m23, p23)) => {
                                                                                                                                                                                                        match T24::spec_read(StreamView { data: s.data, pos: p23 }, endian, ()) {
                                                                                                                                                                                                            Err(e) => Err(e),
                                                                                                                                                                                                            Ok((m24, p24)) => {
                                                                                                                                                                                                                match T25::spec_read(StreamView { data: s.data, pos: p24 }, endian, ()) {
                                                                                                                                                                                                                    Err(e) => Err(e),
                                                                                                                                                                                                                    Ok((m25, p25)) => {
                                                                                                                                                                                                                        match T26::spec_read(StreamView { data: s.data, pos: p25 }, endian, ()) {
                                                                                                                                                                                                                            Err(e) => Err(e),
                                                                                                                                                                                                                            Ok((m26, p26)) => {
                                                                                                                                                                                                                                match T27::spec_read(StreamView { data: s.data, pos: p26 }, endian, ()) {
                                                                                                                                                                                                                                    Err(e) => Err(e),
                                                                                                                                                                                                                                    Ok((m27, p27)) => {
                                                                                                                                                                                                                                        match T28::spec_read(StreamView { data: s.data, pos: p27 }, endian, ()) {
                                                                                                                                                                                                                                            Err(e) => Err(e),
                                                                                                                                                                                                                                            Ok((m28, p28)) => {
                                                                                                                                                                                                                                                match T29::spec_read(StreamView { data: s.data, pos: p28 }, endian, ()) {
                                                                                                                                                                                                                                                    Err(e) => Err(e),
                                                                                                                                                                                                                                                    Ok((m29, p29)) => {
                                                                                                                                                                                                                                                        match T30::spec_read(StreamView { data: s.data, pos: p29 }, endian, ()) {
                                                                                                                                                                                                                                                            Err(e) => Err(e),
                                                                                                                                                                                                                                                            Ok((m30, p30)) => {
                                                                                                                                                                                                                                                                match T31::spec_read(StreamView { data: s.data, pos: p30 }, endian, ()) {
                                                                                                                                                                                                                                                                    Err(e) => Err(e),
                                                                                                                                                                                                                                                                    Ok((m31, p31)) => Ok(((m0, m1, m2, m3, m4, m5, m6, m7, m8, m9, m10, m11, m12, m13, m14, m15, m16, m17, m18, m19, m20, m21, m22, m23, m24, m25, m26, m27, m28, m29, m30, m31), p31)),
                                                                                                                                                                                                                                                                }
                                                                                                                                                                                                                                                            },
                                                                                                                                                                                                                                                        }
                                                                                                                                                                                                                                                    },
                                                                                                                                                                                                                                                }
                                                                                                                                                                                                                                            },
                                                                                                                                                                                                                                        }
                                                                                                                                                                                                                                    },
                                                                                                                                                                                                                                }
                                                                                                                                                                                                                            },
                                                                                                                                                                                                                        }
                                                                                                                                                                                                                    },
                                                                                                                                                                                                                }
                                                                                                                                                                                                            },
                                                                                                                                                                                                        }
                                                                                                                                                                                                    },
                                                                                                                                                                                                }
                                                                                                                                                                                            },
                                                                                                                                                                                        }
                                                                                                                                                                                    },
                                                                                                                                                                                }
                                                                                                                                                                            },
                                                                                                                                                                        }
                                                                                                                                                                    },
                                                                                                                                                                }
                                                                                                                                                            },
                                                                                                                                                        }
                                                                                                                                                    },
                                                                                                                                                }
                                                                                                                                            },
                                                                                                                                        }
                                                                                                                                    },
                                                                                                                                }
                                                                                                                            },
                                                                                                                        }
                                                                                                                    },
                                                                                                                }
                                                                                                            },
                                                                                                        }
                                                                                                    },
                                                                                                }
                                                                                            },
                                                                                        }
                                                                                    },
                                                                                }
                                                                            },
                                                                        }
                                                                    },
                                                                }
                                                            },
                                                        }
                                                    },
                                                }
                                            },
                                        }
                                    },
                                }
                            },
                        }
                    },
                }
            },
        }
    }

    open spec fn spec_after(m: (T0::Model, T1::Model, T2::Model, T3::Model, T4::Model, T5::Model, T6::Model, T7::Model, T8::Model, T9::Model, T10::Model, T11::Model, T12::Model, T13::Model, T14::Model, T15::Model, T16::Model, T17::Model, T18::Model, T19::Model, T20::Model, T21::Model, T22::Model, T23::Model, T24::Model, T25::Model, T26::Model, T27::Model, T28::Model, T29::Model, T30::Model, T31::Model), s: StreamView, endian: Endian, args: ()) -> Result<
        ((T0::Model, T1::Model, T2::Model, T3::Model, T4::Model, T5::Model, T6::Model, T7::Model, T8::Model, T9::Model, T10::Model, T11::Model, T12::Model, T13::Model, T14::Model, T15::Model, T16::Model, T17::Model, T18::Model, T19::Model, T20::Model, T21::Model, T22::Model, T23::Model, T24::Model, T25::Model, T26::Model, T27::Model, T28::Model, T29::Model, T30::Model, T31::Model), int),
        Error,
    > {
        match T0::spec_after(m.0, s, endian, ()) {
            Err(e) => Err(e),
            Ok((m0, p0)) => {
                match T1::spec_after(m.1, StreamView { data: s.data, pos: p0 }, endian, ()) {
                    Err(e) => Err(e),
                    Ok((m1, p1)) => {
                        match T2::spec_after(m.2, StreamView { data: s.data, pos: p1 }, endian, ()) {
                            Err(e) => Err(e),
                            Ok((m2, p2)) => {
                                match T3::spec_after(m.3, StreamView { data: s.data, pos: p2 }, endian, ()) {
                                    Err(e) => Err(e),
                                    Ok((m3, p3)) => {
                                        match T4::spec_after(m.4, StreamView { data: s.data, pos: p3 }, endian, ()) {
                                            Err(e) => Err(e),
                                            Ok((m4, p4)) => {
                                                match T5::spec_after(m.5, StreamView { data: s.data, pos: p4 }, endian, ()) {
                                                    Err(e) => Err(e),
                                                    Ok((m5, p5)) => {
                                                        match T6::spec_after(m.6, StreamView { data: s.data, pos: p5 }, endian, ()) {
                                                            Err(e) => Err(e),
                                                            Ok((m6, p6)) => {
                                                                match T7::spec_after(m.7, StreamView { data: s.data, pos: p6 }, endian, ()) {
                                                                    Err(e) => Err(e),
                                                                    Ok((m7, p7)) => {
                                                                        match T8::spec_after(m.8, StreamView { data: s.data, pos: p7 }, endian, ()) {
                                                                            Err(e) => Err(e),
                                                                            Ok((m8, p8)) => {
                                                                                match T9::spec_after(m.9, StreamView { data: s.data, pos: p8 }, endian, ()) {
                                                                                    Err(e) => Err(e),
                                                                                    Ok((m9, p9)) => {
                                                                                        match T10::spec_after(m.10, StreamView { data: s.data, pos: p9 }, endian, ()) {
                                                                                            Err(e) => Err(e),
                                                                                            Ok((m10, p10)) => {
                                                                                                match T11::spec_after(m.11, StreamView { data: s.data, pos: p10 }, endian, ()) {
                                                                                                    Err(e) => Err(e),
                                                                                                    Ok((m11, p11)) => {
                                                                                                        match T12::spec_after(m.12, StreamView { data: s.data, pos: p11 }, endian, ()) {
                                                                                                            Err(e) => Err(e),
                                                                                                            Ok((m12, p12)) => {
                                                                                                                match T13::spec_after(m.13, StreamView { data: s.data, pos: p12 }, endian, ()) {
                                                                                                                    Err(e) => Err(e),
                                                                                                                    Ok((m13, p13)) => {
                                                                                                                        match T14::spec_after(m.14, StreamView { data: s.data, pos: p13 }, endian, ()) {
                                                                                                                            Err(e) => Err(e),
                                                                                                                            Ok((m14, p14)) => {
                                                                                                                                match T15::spec_after(m.15, StreamView { data: s.data, pos: p14 }, endian, ()) {
                                                                                                                                    Err(e) => Err(e),
                                                                                                                                    Ok((m15, p15)) => {
                                                                                                                                        match T16::spec_after(m.16, StreamView { data: s.data, pos: p15 }, endian, ()) {
                                                                                                                                            Err(e) => Err(e),
                                                                                                                                            Ok((m16, p16)) => {
                                                                                                                                                match T17::spec_after(m.17, StreamView { data: s.data, pos: p16 }, endian, ()) {
                                                                                                                                                    Err(e) => Err(e),
                                                                                                                                                    Ok((m17, p17)) => {
                                                                                                                                                        match T18::spec_after(m.18, StreamView { data: s.data, pos: p17 }, endian, ()) {
                                                                                                                                                            Err(e) => Err(e),
                                                                                                                                                            Ok((m18, p18)) => {
                                                                                                                                                                match T19::spec_after(m.19, StreamView { data: s.data, pos: p18 }, endian, ()) {
                                                                                                                                                                    Err(e) => Err(e),
                                                                                                                                                                    Ok((m19, p19)) => {
                                                                                                                                                                        match T20::spec_after(m.20, StreamView { data: s.data, pos: p19 }, endian, ()) {
                                                                                                                                                                            Err(e) => Err(e),
                                                                                                                                                                            Ok((m20, p20)) => {
                                                                                                                                                                                match T21::spec_after(m.21, StreamView { data: s.data, pos: p20 }, endian, ()) {
                                                                                                                                                                                    Err(e) => Err(e),
                                                                                                                                                                                    Ok((m21, p21)) => {
                                                                                                                                                                                        match T22::spec_after(m.22, StreamView { data: s.data, pos: p21 }, endian, ()) {
                                                                                                                                                                                            Err(e) => Err(e),
                                                                                                                                                                                            Ok((m22, p22)) => {
                                                                                                                                                                                                match T23::spec_after(m.23, StreamView { data: s.data, pos: p22 }, endian, ()) {
                                                                                                                                                                                                    Err(e) => Err(e),
                                                                                                                                                                                                    Ok((m23, p23)) => {
                                                                                                                                                                                                        match T24::spec_after(m.24, StreamView { data: s.data, pos: p23 }, endian, ()) {
                                                                                                                                                                                                            Err(e) => Err(e),
                                                                                                                                                                                                            Ok((m24, p24)) => {
                                                                                                                                                                                                                match T25::spec_after(m.25, StreamView { data: s.data, pos: p24 }, endian, ()) {
                                                                                                                                                                                                                    Err(e) => Err(e),
                                                                                                                                                                                                                    Ok((m25, p25)) => {
                                                                                                                                                                                                                        match T26::spec_after(m.26, StreamView { data: s.data, pos: p25 }, endian, ()) {
                                                                                                                                                                                                                            Err(e) => Err(e),
                                                                                                                                                                                                                            Ok((m26, p26)) => {
                                                                                                                                                                                                                                match T27::spec_after(m.27, StreamView { data: s.data, pos: p26 }, endian, ()) {
                                                                                                                                                                                                                                    Err(e) => Err(e),
                                                                                                                                                                                                                                    Ok((m27, p27)) => {
                                                                                                                                                                                                                                        match T28::spec_after(m.28, StreamView { data: s.data, pos: p27 }, endian, ()) {
                                                                                                                                                                                                                                            Err(e) => Err(e),
                                                                                                                                                                                                                                            Ok((m28, p28)) => {
                                                                                                                                                                                                                                                match T29::spec_after(m.29, StreamView { data: s.data, pos: p28 }, endian, ()) {
                                                                                                                                                                                                                                                    Err(e) => Err(e),
                                                                                                                                                                                                                                                    Ok((m29, p29)) => {
                                                                                                                                                                                                                                                        match T30::spec_after(m.30, StreamView { data: s.data, pos: p29 }, endian, ()) {
                                                                                                                                                                                                                                                            Err(e) => Err(e),
                                                                                                                                                                                                                                                            Ok((m30, p30)) => {
                                                                                                                                                                                                                                                                match T31::spec_after(m.31, StreamView { data: s.data, pos: p30 }, endian, ()) {
                                                                                                                                                                                                                                                                    Err(e) => Err(e),
                                                                                                                                                                                                                                                                    Ok((m31, p31)) => Ok(((m0, m1, m2, m3, m4, m5, m6, m7, m8, m9, m10, m11, m12, m13, m14, m15, m16, m17, m18, m19, m20, m21, m22, m23, m24, m25, m26, m27, m28, m29, m30, m31), p31)),
                                                                                                                                                                                                                                                                }
                                                                                                                                                                                                                                                            },
                                                                                                                                                                                                                                                        }
                                                                                                                                                                                                                                                    },
                                                                                                                                                                                                                                                }
                                                                                                                                                                                                                                            },
                                                                                                                                                                                                                                        }
                                                                                                                                                                                                                                    },
                                                                                                                                                                                                                                }
                                                                                                                                                                                                                            },
                                                                                                                                                                                                                        }
                                                                                                                                                                                                                    },
                                                                                                                                                                                                                }
                                                                                                                                                                                                            },
                                                                                                                                                                                                        }
                                                                                                                                                                                                    },
                                                                                                                                                                                                }
                                                                                                                                                                                            },
                                                                                                                                                                                        }
                                                                                                                                                                                    },
                                                                                                                                                                                }
                                                                                                                                                                            },
                                                                                                                                                                        }
                                                                                                                                                                    },
                                                                                                                                                                }
                                                                                                                                                            },
                                                                                                                                                        }
                                                                                                                                                    },
                                                                                                                                                }
                                                                                                                                            },
                                                                                                                                        }
                                                                                                                                    },
                                                                                                                                }
                                                                                                                            },
                                                                                                                        }
                                                                                                                    },
                                                                                                                }
                                                                                                            },
                                                                                                        }
                                                                                                    },
                                                                                                }
                                                                                            },
                                                                                        }
                                                                                    },
                                                                                }
                                                                            },
                                                                        }
                                                                    },
                                                                }
                                                            },
                                                        }
                                                    },
                                                }
                                            },
                                        }
                                    },
                                }
                            },
                        }
                    },
                }
            },
        }
    }

    open spec fn restores_on_failure() -> bool {
        false
    }

    fn read_options(reader: &mut Cursor, options: &ReadOptions, args: ()) -> (r: BinResult<
        (T0, T1, T2, T3, T4, T5, T6, T7, T8, T9, T10, T11, T12, T13, T14, T15, T16, T17, T18, T19, T20, T21, T22, T23, T24, T25, T26, T27, T28, T29, T30, T31),
    >) {
        proof {
            assert(!Self::restores_on_failure());
        }
        let v0 = match T0::read_options(reader, options, ()) {
            Ok(v) => v,
            Err(e) => {
                return Err(e);
            },
        };
        let v1 = match T1::read_options(reader, options, ()) {
            Ok(v) => v,
            Err(e) => {
                return Err(e);
            },
        };
        let v2 = match T2::read_options(reader, options, ()) {
            Ok(v) => v,
            Err(e) => {
                return Err(e);
            },
        };
        let v3 = match T3::read_options(reader, options, ()) {
            Ok(v) => v,
            Err(e) => {
                return Err(e);
            },
        };
        let v4 = match T4::read_options(reader, options, ()) {
            Ok(v) => v,
            Err(e) => {
                return Err(e);
            },
        };
        let v5 = match T5::read_options(reader, options, ()) {
            Ok(v) => v,
            Err(e) => {
                return Err(e);
            },
        };
        let v6 = match T6::read_options(reader, options, ()) {
            Ok(v) => v,
            Err(e) => {
                return Err(e);
            },
        };
        let v7 = match T7::read_options(reader, options, ()) {
            Ok(v) => v,
            Err(e) => {
                return Err(e);
            },
        };
        let v8 = match T8::read_options(reader, options, ()) {
            Ok(v) => v,
            Err(e) => {
                return Err(e);
            },
        };
        let v9 = match T9::read_options(reader, options, ()) {
            Ok(v) => v,
            Err(e) => {
                return Err(e);
            },
        };
        let v10 = match T10::read_options(reader, options, ()) {
            Ok(v) => v,
            Err(e) => {
                return Err(e);
            },
        };
        let v11 = match T11::read_options(reader, options, ()) {
            Ok(v) => v,
            Err(e) => {
                return Err(e);
            },
        };
        let v12 = match T12::read_options(reader, options, ()) {
            Ok(v) => v,
            Err(e) => {
                return Err(e);
            },
        };
        let v13 = match T13::read_options(reader, options, ()) {
            Ok(v) => v,
            Err(e) => {
                return Err(e);
            },
        };
        let v14 = match T14::read_options(reader, options, ()) {
            Ok(v) => v,
            Err(e) => {
                return Err(e);
            },
        };
        let v15 = match T15::read_options(reader, options, ()) {
            Ok(v) => v,
            Err(e) => {
                return Err(e);
            },
        };
        let v16 = match T16::read_options(reader, options, ()) {
            Ok(v) => v,
            Err(e) => {
                return Err(e);
            },
        };
        let v17 = match T17::read_options(reader, options, ()) {
            Ok(v) => v,
            Err(e) => {
                return Err(e);
            },
        };
        let v18 = match T18::read_options(reader, options, ()) {
            Ok(v) => v,
            Err(e) => {
                return Err(e);
            },
        };
        let v19 = match T19::read_options(reader, options, ()) {
            Ok(v) => v,
            Err(e) => {
                return Err(e);
            },
        };
        let v20 = match T20::read_options(reader, options, ()) {
            Ok(v) => v,
            Err(e) => {
                return Err(e);
            },
        };
        let v21 = match T21::read_options(reader, options, ()) {
            Ok(v) => v,
            Err(e) => {
                return Err(e);
            },
        };
        let v22 = match T22::read_options(reader, options, ()) {
            Ok(v) => v,
            Err(e) => {
                return Err(e);
            },
        };
        let v23 = match T23::read_options(reader, options, ()) {
            Ok(v) => v,
            Err(e) => {
                return Err(e);
            },
        };
        let v24 = match T24::read_options(reader, options, ()) {
            Ok(v) => v,
            Err(e) => {
                return Err(e);
            },
        };
        let v25 = match T25::read_options(reader, options, ()) {
            Ok(v) => v,
            Err(e) => {
                return Err(e);
            },
        };
        let v26 = match T26::read_options(reader, options, ()) {
            Ok(v) => v,
            Err(e) => {
                return Err(e);
            },
        };
        let v27 = match T27::read_options(reader, options, ()) {
            Ok(v) => v,
            Err(e) => {
                return Err(e);
            },
        };
        let v28 = match T28::read_options(reader, options, ()) {
            Ok(v) => v,
            Err(e) => {
                return Err(e);
            },
        };
        let v29 = match T29::read_options(reader, options, ()) {
            Ok(v) => v,
            Err(e) => {
                return Err(e);
            },
        };
        let v30 = match T30::read_options(reader, options, ()) {
            Ok(v) => v,
            Err(e) => {
                return Err(e);
            },
        };
        let v31 = match T31::read_options(reader, options, ()) {
            Ok(v) => v,
            Err(e) => {
                return Err(e);
            },
        };
        Ok((v0, v1, v2, v3, v4, v5, v6, v7, v8, v9, v10, v11, v12, v13, v14, v15, v16, v17, v18, v19, v20, v21, v22, v23, v24, v25, v26, v27, v28, v29, v30, v31))
    }

    fn after_parse(self, reader: &mut Cursor, options: &ReadOptions, args: ()) -> (r: BinResult<
        (T0, T1, T2, T3, T4, T5, T6, T7, T8, T9, T10, T11, T12, T13, T14, T15, T16, T17, T18, T19, T20, T21, T22, T23, T24, T25, T26, T27, T28, T29, T30, T31),
    >) {
        let (x0, x1, x2, x3, x4, x5, x6, x7, x8, x9, x10, x11, x12, x13, x14, x15, x16, x17, x18, x19, x20, x21, x22, x23, x24, x25, x26, x27, x28, x29, x30, x31) = self;
        let v0 = match x0.after_parse(reader, options, ()) {
            Ok(v) => v,
            Err(e) => {
                return Err(e);
            },
        };
        let v1 = match x1.after_parse(reader, options, ()) {
            Ok(v) => v,
            Err(e) => {
                return Err(e);
            },
        };
        let v2 = match x2.after_parse(reader, options, ()) {
            Ok(v) => v,
            Err(e) => {
                return Err(e);
            },
        };
        let v3 = match x3.after_parse(reader, options, ()) {
            Ok(v) => v,
            Err(e) => {
                return Err(e);
            },
        };
        let v4 = match x4.after_parse(reader, options, ()) {
            Ok(v) => v,
            Err(e) => {
                return Err(e);
            },
        };
        let v5 = match x5.after_parse(reader, options, ()) {
            Ok(v) => v,
            Err(e) => {
                return Err(e);
            },
        };
        let v6 = match x6.after_parse(reader, options, ()) {
            Ok(v) => v,
            Err(e) => {
                return Err(e);
            },
        };
        let v7 = match x7.after_parse(reader, options, ()) {
            Ok(v) => v,
            Err(e) => {
                return Err(e);
            },
        };
        let v8 = match x8.after_parse(reader, options, ()) {
            Ok(v) => v,
            Err(e) => {
                return Err(e);
            },
        };
        let v9 = match x9.after_parse(reader, options, ()) {
            Ok(v) => v,
            Err(e) => {
                return Err(e);
            },
        };
        let v10 = match x10.after_parse(reader, options, ()) {
            Ok(v) => v,
            Err(e) => {
                return Err(e);
            },
        };
        let v11 = match x11.after_parse(reader, options, ()) {
            Ok(v) => v,
            Err(e) => {
                return Err(e);
            },
        };
        let v12 = match x12.after_parse(reader, options, ()) {
            Ok(v) => v,
            Err(e) => {
                return Err(e);
            },
        };
        let v13 = match x13.after_parse(reader, options, ()) {
            Ok(v) => v,
            Err(e) => {
                return Err(e);
            },
        };
        let v14 = match x14.after_parse(reader, options, ()) {
            Ok(v) => v,
            Err(e) => {
                return Err(e);
            },
        };
        let v15 = match x15.after_parse(reader, options, ()) {
            Ok(v) => v,
            Err(e) => {
                return Err(e);
            },
        };
        let v16 = match x16.after_parse(reader, options, ()) {
            Ok(v) => v,
            Err(e) => {
                return Err(e);
            },
        };
        let v17 = match x17.after_parse(reader, options, ()) {
            Ok(v) => v,
            Err(e) => {
                return Err(e);
            },
        };
        let v18 = match x18.after_parse(reader, options, ()) {
            Ok(v) => v,
            Err(e) => {
                return Err(e);
            },
        };
        let v19 = match x19.after_parse(reader, options, ()) {
            Ok(v) => v,
            Err(e) => {
                return Err(e);
            },
        };
        let v20 = match x20.after_parse(reader, options, ()) {
            Ok(v) => v,
            Err(e) => {
                return Err(e);
            },
        };
        let v21 = match x21.after_parse(reader, options, ()) {
            Ok(v) => v,
            Err(e) => {
                return Err(e);
            },
        };
        let v22 = match x22.after_parse(reader, options, ()) {
            Ok(v) => v,
            Err(e) => {
                return Err(e);
            },
        };
        let v23 = match x23.after_parse(reader, options, ()) {
            Ok(v) => v,
            Err(e) => {
                return Err(e);
            },
        };
        let v24 = match x24.after_parse(reader, options, ()) {
            Ok(v) => v,
            Err(e) => {
                return Err(e);
            },
        };
        let v25 = match x25.after_parse(reader, options, ()) {
            Ok(v) => v,
            Err(e) => {
                return Err(e);
            },
        };
        let v26 = match x26.after_parse(reader, options, ()) {
            Ok(v) => v,
            Err(e) => {
                return Err(e);
            },
        };
        let v27 = match x27.after_parse(reader, options, ()) {
            Ok(v) => v,
            Err(e) => {
                return Err(e);
            },
        };
        let v28 = match x28.after_parse(reader, options, ()) {
            Ok(v) => v,
            Err(e) => {
                return Err(e);
            },
        };
        let v29 = match x29.after_parse(reader, options, ()) {
            Ok(v) => v,
            Err(e) => {
                return Err(e);
            },
        };
        let v30 = match x30.after_parse(reader, options, ()) {
            Ok(v) => v,
            Err(e) => {
                return Err(e);
            },
        };
        let v31 = match x31.after_parse(reader, options, ()) {
            Ok(v) => v,
            Err(e) => {
                return Err(e);
            },
        };
        Ok((v0, v1, v2, v3, v4, v5, v6, v7, v8, v9, v10, v11, v12, v13, v14, v15, v16, v17, v18, v19, v20, v21, v22, v23, v24, v25, v26, v27, v28, v29, v30, v31))
    }
}

} // verus!
