//! Choosing the serial ports that belong to one device.

use vstd::prelude::*;

verus! {

/// A serial port as the system lists it: its name, and the serial number of
/// the USB device behind it where it is a USB port that reports one.
#[derive(Clone, Debug)]
pub struct PortEntry {
    pub name: String,
    pub usb_serial: Option<String>,
}

/// Whether `p` is a USB port whose device reports the serial number `serial`.
pub open spec fn port_selected(p: PortEntry, serial: Seq<char>) -> bool {
    match p.usb_serial {
        Some(s) => s@ == serial,
        None => false,
    }
}

/// The names of the ports in `ports` that `port_selected` keeps, in order.
pub open spec fn selected_names(ports: Seq<PortEntry>, serial: Seq<char>) -> Seq<Seq<char>>
    decreases ports.len(),
{
    if ports.len() == 0 {
        Seq::empty()
    } else {
        let rest = selected_names(ports.drop_last(), serial);
        if port_selected(ports.last(), serial) {
            rest.push(ports.last().name@)
        } else {
            rest
        }
    }
}

/// The names of the USB ports whose device reports the serial number
/// `serial`, in the order in which they are listed.
pub fn select_ports(ports: &Vec<PortEntry>, serial: &String) -> (r: Vec<String>)
    ensures
        r@.map_values(|s: String| s@) == selected_names(ports@, serial@),
{
    let mut r: Vec<String> = Vec::new();
    let mut i: usize = 0;
    while i < ports.len()
        invariant
            i <= ports@.len(),
            r@.map_values(|s: String| s@) == selected_names(ports@.subrange(0, i as int), serial@),
        decreases ports@.len() - i,
    {
        let p = &ports[i];
        let keep = match &p.usb_serial {
            Some(s) => s.eq(serial),
            None => false,
        };
        let ghost upto = ports@.subrange(0, i + 1);
        assert(upto.drop_last() =~= ports@.subrange(0, i as int));
        assert(upto.last() == ports@[i as int]);
        assert(keep == port_selected(ports@[i as int], serial@));
        if keep {
            let ghost before = r@;
            r.push(p.name.clone());
            assert(r@.map_values(|s: String| s@) =~= before.map_values(|s: String| s@).push(p.name@));
        }
        i = i + 1;
    }
    assert(ports@.subrange(0, ports@.len() as int) =~= ports@);
    r
}

} // verus!
