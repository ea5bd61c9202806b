//! Detection methods, entries of libresdet's method table reached through a handle.
use vstd::prelude::*;
use vstd::string::*;
use crate::error::ResdetError;
use crate::cstring::{bytes_view, c_name, contains_nul, decode_c_string, decoded_c_string, string_result_view};

verus! {

/// Detection method. The handle names an entry of libresdet's method table; it is never null.
pub struct Method {
    handle: usize,
}

impl Method {
    #[verifier::type_invariant]
    spec fn handle_is_set(self) -> bool {
        self.handle != 0
    }

    /// The handle of the table entry.
    pub closed spec fn handle(&self) -> usize {
        self.handle
    }

    /// Get all available methods. `entry` hands back the handle of the `i`-th entry of
    /// libresdet's method table, or `None` where the table ends (a null table, or an entry
    /// without a name); a null handle ends the table too. Entry `i + 1` is asked for only
    /// after entry `i` gave a handle. The methods come in table order.
    pub fn all<F: Fn(usize) -> Option<usize>>(entry: F) -> (res: Vec<Method>)
        requires
            entry.requires((0usize,)),
            forall|i: usize, h: usize|
                i < usize::MAX && h != 0 && #[trigger] entry.ensures((i,), Some(h))
                    ==> entry.requires(((i + 1) as usize,)),
        ensures
            forall|i: int|
                0 <= i < res@.len() ==> entry.ensures((i as usize,), Some(#[trigger] res@[i].handle())),
            res@.len() < usize::MAX ==> exists|end: Option<usize>|
                #[trigger] entry.ensures((res.len(),), end) && (end is None || end == Some(0usize)),
    {
        let mut methods: Vec<Method> = Vec::new();
        let mut i: usize = 0;
        loop
            invariant
                forall|k: usize, h: usize|
                    k < usize::MAX && h != 0 && #[trigger] entry.ensures((k,), Some(h))
                        ==> entry.requires(((k + 1) as usize,)),
                methods@.len() == i,
                forall|j: int|
                    0 <= j < i ==> entry.ensures((j as usize,), Some(#[trigger] methods@[j].handle())),
                i < usize::MAX ==> entry.requires((i,)),
            ensures
                methods@.len() == i,
                forall|j: int|
                    0 <= j < i ==> entry.ensures((j as usize,), Some(#[trigger] methods@[j].handle())),
                i < usize::MAX ==> exists|end: Option<usize>|
                    #[trigger] entry.ensures((i,), end) && (end is None || end == Some(0usize)),
            decreases usize::MAX - i,
        {
            if i == usize::MAX {
                break;
            }
            let found = entry(i);
            match found {
                Some(h) => {
                    if h == 0 {
                        break;
                    }
                    methods.push(Method { handle: h });
                    i = i + 1;
                },
                None => {
                    break;
                },
            }
        }
        assert(methods.len() == i);
        methods
    }

    /// Get a method by name. `lookup` asks libresdet for the method whose name is the given
    /// NUL-terminated key and returns its handle, 0 where there is none. A name that holds a
    /// NUL byte is `Invalid` and is never looked up.
    pub fn by_name<F: Fn(&Vec<u8>) -> usize>(name: &str, lookup: F) -> (res: Result<Method, ResdetError>)
        requires
            forall|key: &Vec<u8>|
                !contains_nul(name.spec_bytes()) && key@ == name.spec_bytes().push(0u8)
                    ==> #[trigger] lookup.requires((key,)),
        ensures
            contains_nul(name.spec_bytes()) ==> res == Err::<Method, ResdetError>(ResdetError::Invalid),
            !contains_nul(name.spec_bytes()) ==> exists|key: &Vec<u8>, h: usize|
                #[trigger] lookup.ensures((key,), h) && key@ == name.spec_bytes().push(0u8) && (if h == 0 {
                    res == Err::<Method, ResdetError>(ResdetError::Invalid)
                } else {
                    res matches Ok(m) && m.handle() == h
                }),
    {
        let key = match c_name(name) {
            Ok(key) => key,
            Err(e) => return Err(e),
        };
        let h = lookup(&key);
        if h == 0 {
            return Err(ResdetError::Invalid);
        }
        Ok(Method { handle: h })
    }

    /// Get the method name. `read` hands back the bytes of the name in the table entry with
    /// the given handle, `None` where the entry's name is a null pointer.
    pub fn name<F: Fn(usize) -> Option<Vec<u8>>>(&self, read: F) -> (res: Result<String, ResdetError>)
        requires
            read.requires((self.handle(),)),
        ensures
            exists|raw: Option<Vec<u8>>|
                #[trigger] read.ensures((self.handle(),), raw)
                && string_result_view(res) == decoded_c_string(bytes_view(raw)),
    {
        decode_c_string(read(self.handle))
    }

    /// The handle of the table entry, never null.
    pub fn as_ptr(&self) -> (res: usize)
        ensures
            res == self.handle(),
            res != 0,
    {
        proof {
            use_type_invariant(self);
        }
        self.handle
    }
}

} // verus!
