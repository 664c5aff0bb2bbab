use vstd::prelude::*;

verus! {

/// Why the stored description of the GPU cannot be used, so that the GPU
/// has to be characterized again.
#[derive(Debug, Clone, PartialEq, Eq)]
pub enum DescError {
    /// The description file could not be opened; holds the reason.
    FileNotFound(String),
    /// The description file could not be parsed; holds the reason.
    Parser(String),
    /// The description is that of another GPU; holds the name of the GPU
    /// that is present.
    WrongGpu(String),
}

/// Decides whether a stored GPU description can be used. `stored` is the name
/// of the GPU in the description that was loaded, or the error met while
/// loading it; `device_name` is the name of the GPU that is present. The
/// description is used exactly when it loaded and names that GPU; otherwise the
/// error says why the GPU must be characterized again.
pub fn check_gpu_desc(stored: Result<String, DescError>, device_name: String) -> (r: Result<
    (),
    DescError,
>)
    ensures
        match stored {
            Err(e) => r == Err::<(), DescError>(e),
            Ok(name) => if name@ == device_name@ {
                r is Ok
            } else {
                r matches Err(DescError::WrongGpu(n)) && n == device_name
            },
        },
{
    match stored {
        Err(e) => Err(e),
        Ok(name) => {
            if name == device_name {
                Ok(())
            } else {
                Err(DescError::WrongGpu(device_name))
            }
        },
    }
}

/// Header of a table of performance counters: the names of the parameters,
/// then the names of the counters.
pub fn create_table_header(parameters: &[&str], counters: &[String]) -> (r: Vec<String>)
    ensures
        r@.len() == parameters@.len() + counters@.len(),
        forall|i: int| 0 <= i < parameters@.len() ==> #[trigger] r@[i]@ == parameters@[i]@,
        forall|i: int|
            0 <= i < counters@.len() ==> #[trigger] r@[parameters@.len() + i]@ == counters@[i]@,
{
    let mut header: Vec<String> = Vec::new();
    for i in 0..parameters.len()
        invariant
            header@.len() == i,
            forall|j: int| 0 <= j < i ==> #[trigger] header@[j]@ == parameters@[j]@,
    {
        header.push(parameters[i].to_owned());
    }
    for i in 0..counters.len()
        invariant
            header@.len() == parameters@.len() + i,
            forall|j: int| 0 <= j < parameters@.len() ==> #[trigger] header@[j]@ == parameters@[j]@,
            forall|j: int|
                0 <= j < i ==> #[trigger] header@[parameters@.len() + j]@ == counters@[j]@,
    {
        header.push(counters[i].clone());
    }
    header
}

} // verus!
